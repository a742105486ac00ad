//! Key and gamepad bindings of the game actions, and the state of the
//! screens that change them.
use vstd::prelude::*;
use vstd::string::*;
use crate::keys::{KeyCode, key_code_name, key_code_from_str, key_code_display_name, key_name, key_from_name, key_label};
use crate::text::{decimal, push_decimal, str_eq};

verus! {

// ============================================
// SerializableKeyCode
// ============================================

/// A key as stored in the bindings file: written as its name.
#[derive(Debug, Clone, PartialEq, Eq)]
pub struct SerializableKeyCode(pub KeyCode);

/// The message of a name that no key has.
pub open spec fn unknown_key_message(s: Seq<char>) -> Seq<char> {
    "Unknown key: "@ + s
}

impl SerializableKeyCode {
    /// The text a key is written as.
    pub fn to_name(&self) -> (r: &str)
        ensures
            r@ == key_name(self.0),
    {
        key_code_name(&self.0)
    }

    /// Reads a key from its text; an unknown name is an error that names it.
    pub fn from_name(s: &str) -> (r: Result<SerializableKeyCode, String>)
        ensures
            match key_from_name(s@) {
                Some(k) => r == Ok::<SerializableKeyCode, String>(SerializableKeyCode(k)),
                None => r matches Err(m) && m@ == unknown_key_message(s@),
            },
    {
        match key_code_from_str(s) {
            Some(k) => Ok(SerializableKeyCode(k)),
            None => {
                let mut m = String::from_str("Unknown key: ");
                m.append(s);
                Err(m)
            },
        }
    }
}

// ============================================
// GameAction
// ============================================

/// The actions that can be bound to a key or a gamepad input.
#[derive(Debug, Clone, Copy, PartialEq, Eq, Hash, Structural)]
pub enum GameAction {
    MoveUp,
    MoveDown,
    MoveLeft,
    MoveRight,
    Kick,
    CurveNorth,
    CurveSouth,
    CurveEast,
    CurveWest,
    Wildcard,
    Sprint,
    Mode,
}

/// The label of an action in the settings screen.
pub open spec fn action_label(a: GameAction) -> Seq<char> {
    match a {
        GameAction::MoveUp => "Mover Arriba"@,
        GameAction::MoveDown => "Mover Abajo"@,
        GameAction::MoveLeft => "Mover Izquierda"@,
        GameAction::MoveRight => "Mover Derecha"@,
        GameAction::Kick => "Patear (sin comba)"@,
        GameAction::CurveNorth => "Comba Norte"@,
        GameAction::CurveSouth => "Comba Sur"@,
        GameAction::CurveEast => "Comba Este"@,
        GameAction::CurveWest => "Comba Oeste"@,
        GameAction::Wildcard => "Especial"@,
        GameAction::Sprint => "Sprint"@,
        GameAction::Mode => "Modo"@,
    }
}

/// The actions in the order the settings screen lists them.
pub open spec fn all_actions() -> Seq<GameAction> {
    seq![
        GameAction::MoveUp,
        GameAction::MoveDown,
        GameAction::MoveLeft,
        GameAction::MoveRight,
        GameAction::Kick,
        GameAction::CurveNorth,
        GameAction::CurveSouth,
        GameAction::CurveEast,
        GameAction::CurveWest,
        GameAction::Wildcard,
        GameAction::Sprint,
        GameAction::Mode,
    ]
}

impl GameAction {
    /// Every action, once each, in display order.
    pub fn all() -> (r: &'static [GameAction])
        ensures
            r@ == all_actions(),
    {
        let r: &'static [GameAction] = &[
            GameAction::MoveUp,
            GameAction::MoveDown,
            GameAction::MoveLeft,
            GameAction::MoveRight,
            GameAction::Kick,
            GameAction::CurveNorth,
            GameAction::CurveSouth,
            GameAction::CurveEast,
            GameAction::CurveWest,
            GameAction::Wildcard,
            GameAction::Sprint,
            GameAction::Mode,
        ];
        assert(r@ =~= all_actions());
        r
    }

    /// The label of the action.
    pub fn display_name(&self) -> (r: &'static str)
        ensures
            r@ == action_label(*self),
    {
        match self {
            GameAction::MoveUp => "Mover Arriba",
            GameAction::MoveDown => "Mover Abajo",
            GameAction::MoveLeft => "Mover Izquierda",
            GameAction::MoveRight => "Mover Derecha",
            GameAction::Kick => "Patear (sin comba)",
            GameAction::CurveNorth => "Comba Norte",
            GameAction::CurveSouth => "Comba Sur",
            GameAction::CurveEast => "Comba Este",
            GameAction::CurveWest => "Comba Oeste",
            GameAction::Wildcard => "Especial",
            GameAction::Sprint => "Sprint",
            GameAction::Mode => "Modo",
        }
    }
}

// ============================================
// KeyBindingsConfig
// ============================================

/// The key bound to each action.
#[derive(Debug, Clone)]
pub struct KeyBindingsConfig {
    pub move_up: SerializableKeyCode,
    pub move_down: SerializableKeyCode,
    pub move_left: SerializableKeyCode,
    pub move_right: SerializableKeyCode,
    pub kick: SerializableKeyCode,
    pub curve_north: SerializableKeyCode,
    pub curve_south: SerializableKeyCode,
    pub curve_east: SerializableKeyCode,
    pub curve_west: SerializableKeyCode,
    pub wildcard: SerializableKeyCode,
    pub sprint: SerializableKeyCode,
    pub mode: SerializableKeyCode,
}


impl KeyBindingsConfig {
    /// The bindings a player starts with.
    pub open spec fn spec_default() -> Self {
        KeyBindingsConfig {
            move_up: SerializableKeyCode(KeyCode::ArrowUp),
            move_down: SerializableKeyCode(KeyCode::ArrowDown),
            move_left: SerializableKeyCode(KeyCode::ArrowLeft),
            move_right: SerializableKeyCode(KeyCode::ArrowRight),
            kick: SerializableKeyCode(KeyCode::KeyX),
            curve_north: SerializableKeyCode(KeyCode::KeyW),
            curve_south: SerializableKeyCode(KeyCode::KeyS),
            curve_east: SerializableKeyCode(KeyCode::KeyD),
            curve_west: SerializableKeyCode(KeyCode::KeyA),
            wildcard: SerializableKeyCode(KeyCode::ShiftLeft),
            sprint: SerializableKeyCode(KeyCode::Space),
            mode: SerializableKeyCode(KeyCode::ControlRight),
        }
    }

    /// The key bound to `action`.
    pub open spec fn binding(self, action: GameAction) -> KeyCode {
        match action {
            GameAction::MoveUp => self.move_up.0,
            GameAction::MoveDown => self.move_down.0,
            GameAction::MoveLeft => self.move_left.0,
            GameAction::MoveRight => self.move_right.0,
            GameAction::Kick => self.kick.0,
            GameAction::CurveNorth => self.curve_north.0,
            GameAction::CurveSouth => self.curve_south.0,
            GameAction::CurveEast => self.curve_east.0,
            GameAction::CurveWest => self.curve_west.0,
            GameAction::Wildcard => self.wildcard.0,
            GameAction::Sprint => self.sprint.0,
            GameAction::Mode => self.mode.0,
        }
    }

    /// The bindings with `key` bound to `action` and nothing else changed.
    pub open spec fn with_binding(self, action: GameAction, key: KeyCode) -> Self {
        match action {
            GameAction::MoveUp => KeyBindingsConfig { move_up: SerializableKeyCode(key), ..self },
            GameAction::MoveDown => KeyBindingsConfig { move_down: SerializableKeyCode(key), ..self },
            GameAction::MoveLeft => KeyBindingsConfig { move_left: SerializableKeyCode(key), ..self },
            GameAction::MoveRight => KeyBindingsConfig { move_right: SerializableKeyCode(key), ..self },
            GameAction::Kick => KeyBindingsConfig { kick: SerializableKeyCode(key), ..self },
            GameAction::CurveNorth => KeyBindingsConfig { curve_north: SerializableKeyCode(key), ..self },
            GameAction::CurveSouth => KeyBindingsConfig { curve_south: SerializableKeyCode(key), ..self },
            GameAction::CurveEast => KeyBindingsConfig { curve_east: SerializableKeyCode(key), ..self },
            GameAction::CurveWest => KeyBindingsConfig { curve_west: SerializableKeyCode(key), ..self },
            GameAction::Wildcard => KeyBindingsConfig { wildcard: SerializableKeyCode(key), ..self },
            GameAction::Sprint => KeyBindingsConfig { sprint: SerializableKeyCode(key), ..self },
            GameAction::Mode => KeyBindingsConfig { mode: SerializableKeyCode(key), ..self },
        }
    }

    /// The key bound to `action`.
    pub fn get_key(&self, action: GameAction) -> (r: KeyCode)
        ensures
            r == self.binding(action),
    {
        match action {
            GameAction::MoveUp => self.move_up.0.duplicate(),
            GameAction::MoveDown => self.move_down.0.duplicate(),
            GameAction::MoveLeft => self.move_left.0.duplicate(),
            GameAction::MoveRight => self.move_right.0.duplicate(),
            GameAction::Kick => self.kick.0.duplicate(),
            GameAction::CurveNorth => self.curve_north.0.duplicate(),
            GameAction::CurveSouth => self.curve_south.0.duplicate(),
            GameAction::CurveEast => self.curve_east.0.duplicate(),
            GameAction::CurveWest => self.curve_west.0.duplicate(),
            GameAction::Wildcard => self.wildcard.0.duplicate(),
            GameAction::Sprint => self.sprint.0.duplicate(),
            GameAction::Mode => self.mode.0.duplicate(),
        }
    }

    /// Binds `key` to `action`.
    pub fn set_key(&mut self, action: GameAction, key: KeyCode)
        ensures
            *final(self) == old(self).with_binding(action, key),
    {
        let key = SerializableKeyCode(key);
        match action {
            GameAction::MoveUp => self.move_up = key,
            GameAction::MoveDown => self.move_down = key,
            GameAction::MoveLeft => self.move_left = key,
            GameAction::MoveRight => self.move_right = key,
            GameAction::Kick => self.kick = key,
            GameAction::CurveNorth => self.curve_north = key,
            GameAction::CurveSouth => self.curve_south = key,
            GameAction::CurveEast => self.curve_east = key,
            GameAction::CurveWest => self.curve_west = key,
            GameAction::Wildcard => self.wildcard = key,
            GameAction::Sprint => self.sprint = key,
            GameAction::Mode => self.mode = key,
        }
    }
}

impl Default for KeyBindingsConfig {
    fn default() -> (r: Self)
        ensures
            r == Self::spec_default(),
    {
        KeyBindingsConfig {
            move_up: SerializableKeyCode(KeyCode::ArrowUp),
            move_down: SerializableKeyCode(KeyCode::ArrowDown),
            move_left: SerializableKeyCode(KeyCode::ArrowLeft),
            move_right: SerializableKeyCode(KeyCode::ArrowRight),
            kick: SerializableKeyCode(KeyCode::KeyX),
            curve_north: SerializableKeyCode(KeyCode::KeyW),
            curve_south: SerializableKeyCode(KeyCode::KeyS),
            curve_east: SerializableKeyCode(KeyCode::KeyD),
            curve_west: SerializableKeyCode(KeyCode::KeyA),
            wildcard: SerializableKeyCode(KeyCode::ShiftLeft),
            sprint: SerializableKeyCode(KeyCode::Space),
            mode: SerializableKeyCode(KeyCode::ControlRight),
        }
    }
}


// ============================================
// Gamepad bindings
// ============================================

/// A gamepad input, by number.
#[derive(Debug, Clone, Copy, PartialEq, Eq, Hash, Structural)]
pub enum RawGamepadInput {
    /// Button `n`.
    Button(u8),
    /// Axis `n` pushed past the threshold in the positive direction.
    AxisPositive(u8),
    /// Axis `n` pushed past the threshold in the negative direction.
    AxisNegative(u8),
}

/// The label of a gamepad input: `B3`, `X1+`, `X1-`.
pub open spec fn gamepad_input_label(i: RawGamepadInput) -> Seq<char> {
    match i {
        RawGamepadInput::Button(n) => "B"@ + decimal(n as nat),
        RawGamepadInput::AxisPositive(n) => "X"@ + decimal(n as nat) + "+"@,
        RawGamepadInput::AxisNegative(n) => "X"@ + decimal(n as nat) + "-"@,
    }
}

impl RawGamepadInput {
    /// The label of the input.
    pub fn display_name(&self) -> (r: String)
        ensures
            r@ == gamepad_input_label(*self),
    {
        match self {
            RawGamepadInput::Button(n) => {
                let mut s = String::from_str("B");
                push_decimal(&mut s, *n as u32);
                s
            },
            RawGamepadInput::AxisPositive(n) => {
                let mut s = String::from_str("X");
                push_decimal(&mut s, *n as u32);
                s.append("+");
                s
            },
            RawGamepadInput::AxisNegative(n) => {
                let mut s = String::from_str("X");
                push_decimal(&mut s, *n as u32);
                s.append("-");
                s
            },
        }
    }
}

/// The gamepad input bound to each action, if any. Gamepads without a right
/// stick bind the four curve directions to buttons or axes here.
#[derive(Debug, Clone, Copy, PartialEq, Eq)]
pub struct GamepadBindingsConfig {
    pub move_up: Option<RawGamepadInput>,
    pub move_down: Option<RawGamepadInput>,
    pub move_left: Option<RawGamepadInput>,
    pub move_right: Option<RawGamepadInput>,
    pub kick: Option<RawGamepadInput>,
    pub curve_north: Option<RawGamepadInput>,
    pub curve_south: Option<RawGamepadInput>,
    pub curve_east: Option<RawGamepadInput>,
    pub curve_west: Option<RawGamepadInput>,
    pub wildcard: Option<RawGamepadInput>,
    pub sprint: Option<RawGamepadInput>,
    pub mode: Option<RawGamepadInput>,
}

impl GamepadBindingsConfig {
    /// The bindings a gamepad starts with (the right stick, axes 3 and 4,
    /// stands in for the curve directions).
    pub open spec fn spec_default() -> Self {
        GamepadBindingsConfig {
            move_up: Some(RawGamepadInput::AxisNegative(1)),
            move_down: Some(RawGamepadInput::AxisPositive(1)),
            move_left: Some(RawGamepadInput::AxisNegative(0)),
            move_right: Some(RawGamepadInput::AxisPositive(0)),
            kick: Some(RawGamepadInput::Button(0)),
            curve_north: Some(RawGamepadInput::AxisNegative(4)),
            curve_south: Some(RawGamepadInput::AxisPositive(4)),
            curve_east: Some(RawGamepadInput::AxisPositive(3)),
            curve_west: Some(RawGamepadInput::AxisNegative(3)),
            wildcard: Some(RawGamepadInput::Button(4)),
            sprint: Some(RawGamepadInput::Button(5)),
            mode: Some(RawGamepadInput::Button(3)),
        }
    }

    /// The input bound to `action`.
    pub open spec fn binding(self, action: GameAction) -> Option<RawGamepadInput> {
        match action {
            GameAction::MoveUp => self.move_up,
            GameAction::MoveDown => self.move_down,
            GameAction::MoveLeft => self.move_left,
            GameAction::MoveRight => self.move_right,
            GameAction::Kick => self.kick,
            GameAction::CurveNorth => self.curve_north,
            GameAction::CurveSouth => self.curve_south,
            GameAction::CurveEast => self.curve_east,
            GameAction::CurveWest => self.curve_west,
            GameAction::Wildcard => self.wildcard,
            GameAction::Sprint => self.sprint,
            GameAction::Mode => self.mode,
        }
    }

    /// The bindings with `input` bound to `action` and nothing else changed.
    pub open spec fn with_binding(self, action: GameAction, input: Option<RawGamepadInput>) -> Self {
        match action {
            GameAction::MoveUp => GamepadBindingsConfig { move_up: input, ..self },
            GameAction::MoveDown => GamepadBindingsConfig { move_down: input, ..self },
            GameAction::MoveLeft => GamepadBindingsConfig { move_left: input, ..self },
            GameAction::MoveRight => GamepadBindingsConfig { move_right: input, ..self },
            GameAction::Kick => GamepadBindingsConfig { kick: input, ..self },
            GameAction::CurveNorth => GamepadBindingsConfig { curve_north: input, ..self },
            GameAction::CurveSouth => GamepadBindingsConfig { curve_south: input, ..self },
            GameAction::CurveEast => GamepadBindingsConfig { curve_east: input, ..self },
            GameAction::CurveWest => GamepadBindingsConfig { curve_west: input, ..self },
            GameAction::Wildcard => GamepadBindingsConfig { wildcard: input, ..self },
            GameAction::Sprint => GamepadBindingsConfig { sprint: input, ..self },
            GameAction::Mode => GamepadBindingsConfig { mode: input, ..self },
        }
    }

    /// The input bound to `action`.
    pub fn get_binding(&self, action: GameAction) -> (r: Option<RawGamepadInput>)
        ensures
            r == self.binding(action),
    {
        match action {
            GameAction::MoveUp => self.move_up,
            GameAction::MoveDown => self.move_down,
            GameAction::MoveLeft => self.move_left,
            GameAction::MoveRight => self.move_right,
            GameAction::Kick => self.kick,
            GameAction::CurveNorth => self.curve_north,
            GameAction::CurveSouth => self.curve_south,
            GameAction::CurveEast => self.curve_east,
            GameAction::CurveWest => self.curve_west,
            GameAction::Wildcard => self.wildcard,
            GameAction::Sprint => self.sprint,
            GameAction::Mode => self.mode,
        }
    }

    /// Binds `input` to `action` (`None` unbinds it).
    pub fn set_binding(&mut self, action: GameAction, input: Option<RawGamepadInput>)
        ensures
            *final(self) == old(self).with_binding(action, input),
    {
        match action {
            GameAction::MoveUp => self.move_up = input,
            GameAction::MoveDown => self.move_down = input,
            GameAction::MoveLeft => self.move_left = input,
            GameAction::MoveRight => self.move_right = input,
            GameAction::Kick => self.kick = input,
            GameAction::CurveNorth => self.curve_north = input,
            GameAction::CurveSouth => self.curve_south = input,
            GameAction::CurveEast => self.curve_east = input,
            GameAction::CurveWest => self.curve_west = input,
            GameAction::Wildcard => self.wildcard = input,
            GameAction::Sprint => self.sprint = input,
            GameAction::Mode => self.mode = input,
        }
    }
}

impl Default for GamepadBindingsConfig {
    fn default() -> (r: Self)
        ensures
            r == Self::spec_default(),
    {
        GamepadBindingsConfig {
            move_up: Some(RawGamepadInput::AxisNegative(1)),
            move_down: Some(RawGamepadInput::AxisPositive(1)),
            move_left: Some(RawGamepadInput::AxisNegative(0)),
            move_right: Some(RawGamepadInput::AxisPositive(0)),
            kick: Some(RawGamepadInput::Button(0)),
            curve_north: Some(RawGamepadInput::AxisNegative(4)),
            curve_south: Some(RawGamepadInput::AxisPositive(4)),
            curve_east: Some(RawGamepadInput::AxisPositive(3)),
            curve_west: Some(RawGamepadInput::AxisNegative(3)),
            wildcard: Some(RawGamepadInput::Button(4)),
            sprint: Some(RawGamepadInput::Button(5)),
            mode: Some(RawGamepadInput::Button(3)),
        }
    }
}

// ============================================
// Settings screen state
// ============================================

/// The prompt shown while waiting for a new key for `action`.
pub open spec fn key_prompt(action: GameAction) -> Seq<char> {
    "Presiona una tecla para '"@ + action_label(action) + "'... (ESC para cancelar)"@
}

/// The prompt shown while waiting for a new gamepad input for `action`.
pub open spec fn gamepad_prompt(action: GameAction) -> Seq<char> {
    "Presiona un botón/eje para '"@ + action_label(action) + "'... (ESC para cancelar)"@
}

/// State of the keyboard settings screen.
#[derive(Debug)]
pub struct SettingsUIState {
    pub rebinding_action: Option<GameAction>,
    pub pending_bindings: Option<KeyBindingsConfig>,
    pub status_message: Option<String>,
}

impl Default for SettingsUIState {
    fn default() -> (r: Self)
        ensures
            r.rebinding_action is None,
            r.pending_bindings is None,
            r.status_message is None,
    {
        SettingsUIState { rebinding_action: None, pending_bindings: None, status_message: None }
    }
}

impl SettingsUIState {
    /// Waits for a new key for `action`, with a prompt saying so.
    pub fn start_rebind(&mut self, action: GameAction)
        ensures
            final(self).rebinding_action == Some(action),
            final(self).pending_bindings == old(self).pending_bindings,
            final(self).status_message matches Some(m) && m@ == key_prompt(action),
    {
        self.rebinding_action = Some(action);
        let mut m = String::from_str("Presiona una tecla para '");
        m.append(action.display_name());
        m.append("'... (ESC para cancelar)");
        self.status_message = Some(m);
    }

    /// Stops waiting for a key and clears the prompt.
    pub fn cancel_rebind(&mut self)
        ensures
            final(self).rebinding_action is None,
            final(self).pending_bindings == old(self).pending_bindings,
            final(self).status_message is None,
    {
        self.rebinding_action = None;
        self.status_message = None;
    }

    /// Whether a key is being waited for.
    pub fn is_rebinding(&self) -> (r: bool)
        ensures
            r == (self.rebinding_action is Some),
    {
        self.rebinding_action.is_some()
    }
}

// ============================================
// General configuration
// ============================================

/// General settings of the game client.
#[derive(Debug, Clone)]
pub struct AppConfig {
    pub server: String,
}

/// The server a client connects to unless configured otherwise.
pub open spec fn default_server() -> Seq<char> {
    "kinetic-ball.fly.dev"@
}

impl Default for AppConfig {
    fn default() -> (r: Self)
        ensures
            r.server@ == default_server(),
    {
        AppConfig { server: String::from_str("kinetic-ball.fly.dev") }
    }
}

// ============================================
// Input detection
// ============================================

/// An input seen while configuring the controls.
#[derive(Debug, Clone)]
pub enum DetectedInput {
    Keyboard(KeyCode),
    Gamepad(RawGamepadInput),
}

/// The feedback label of a detected input.
pub open spec fn detected_input_label(d: DetectedInput) -> Seq<char> {
    match d {
        DetectedInput::Keyboard(k) => "Tecla: "@ + key_label(k),
        DetectedInput::Gamepad(g) => "Gamepad: "@ + gamepad_input_label(g),
    }
}

impl DetectedInput {
    /// The feedback label of the input.
    pub fn display_name(&self) -> (r: String)
        ensures
            r@ == detected_input_label(*self),
    {
        match self {
            DetectedInput::Keyboard(k) => {
                let label = key_code_display_name(k.duplicate());
                let mut s = String::from_str("Tecla: ");
                s.append(label.as_str());
                s
            },
            DetectedInput::Gamepad(g) => {
                let label = g.display_name();
                let mut s = String::from_str("Gamepad: ");
                s.append(label.as_str());
                s
            },
        }
    }
}

/// State of the combined keyboard and gamepad settings screen.
#[derive(Debug, Default)]
pub struct InputConfigUIState {
    /// Action being bound.
    pub rebinding_action: Option<GameAction>,
    /// Device tab (0 = keyboard, 1 = gamepad).
    pub device_tab: usize,
    /// Keyboard bindings being edited.
    pub pending_keyboard: Option<KeyBindingsConfig>,
    /// Gamepad bindings being edited.
    pub pending_gamepad: Option<GamepadBindingsConfig>,
    /// Status line.
    pub status_message: Option<String>,
    /// Last input seen (feedback).
    pub last_detected: Option<DetectedInput>,
}

// ============================================
// GamepadBindingsMap
// ============================================

/// Whether the names of `entries` are pairwise different.
pub open spec fn distinct_names(entries: Seq<(String, GamepadBindingsConfig)>) -> bool {
    forall|i: int, j: int|
        0 <= i < entries.len() && 0 <= j < entries.len() && i != j ==> entries[i].0@
            != entries[j].0@
}

/// Whether some entry has the name `name`.
pub open spec fn has_name(entries: Seq<(String, GamepadBindingsConfig)>, name: Seq<char>) -> bool {
    exists|i: int| 0 <= i < entries.len() && entries[i].0@ == name
}

/// The position of an entry named `name`.
pub open spec fn name_index(entries: Seq<(String, GamepadBindingsConfig)>, name: Seq<char>) -> int {
    choose|i: int| 0 <= i < entries.len() && entries[i].0@ == name
}

/// The map from names to bindings that entries with distinct names hold.
pub open spec fn entries_map(entries: Seq<(String, GamepadBindingsConfig)>) -> Map<
    Seq<char>,
    GamepadBindingsConfig,
> {
    Map::new(
        |name: Seq<char>| has_name(entries, name),
        |name: Seq<char>| entries[name_index(entries, name)].1,
    )
}

/// The bindings a map gives a gamepad type: those stored for it, else the
/// default bindings.
pub open spec fn bindings_in(
    m: Map<Seq<char>, GamepadBindingsConfig>,
    gamepad_type: Seq<char>,
) -> GamepadBindingsConfig {
    if m.contains_key(gamepad_type) {
        m[gamepad_type]
    } else {
        GamepadBindingsConfig::spec_default()
    }
}

/// Gamepad bindings kept per gamepad type (its name).
pub struct GamepadBindingsMap {
    entries: Vec<(String, GamepadBindingsConfig)>,
}

impl View for GamepadBindingsMap {
    type V = Map<Seq<char>, GamepadBindingsConfig>;

    /// The bindings stored for each gamepad type.
    closed spec fn view(&self) -> Map<Seq<char>, GamepadBindingsConfig> {
        entries_map(self.entries@)
    }
}

impl GamepadBindingsMap {
    #[verifier::type_invariant]
    spec fn names_distinct(self) -> bool {
        distinct_names(self.entries@)
    }

    /// An empty map.
    pub fn new() -> (r: Self)
        ensures
            r@ == Map::<Seq<char>, GamepadBindingsConfig>::empty(),
    {
        let r = GamepadBindingsMap { entries: Vec::new() };
        assert(r@ =~= Map::<Seq<char>, GamepadBindingsConfig>::empty());
        r
    }

    /// Position of the entry for `name`, if any.
    fn find(&self, name: &str) -> (r: Option<usize>)
        ensures
            match r {
                Some(i) => i < self.entries@.len() && self.entries@[i as int].0@ == name@,
                None => !has_name(self.entries@, name@),
            },
    {
        let n = self.entries.len();
        let mut i: usize = 0;
        while i < n
            invariant
                n == self.entries@.len(),
                i <= n,
                forall|j: int| 0 <= j < i ==> self.entries@[j].0@ != name@,
            decreases n - i,
        {
            if str_eq(self.entries[i].0.as_str(), name) {
                return Some(i);
            }
            i = i + 1;
        }
        None
    }

    /// The bindings for a gamepad type, or the default bindings when that
    /// type has none stored.
    pub fn get_bindings(&self, gamepad_type: &str) -> (r: GamepadBindingsConfig)
        ensures
            r == bindings_in(self@, gamepad_type@),
    {
        proof {
            use_type_invariant(self);
        }
        match self.find(gamepad_type) {
            Some(i) => {
                proof {
                    let k = name_index(self.entries@, gamepad_type@);
                    assert(has_name(self.entries@, gamepad_type@));
                    assert(k == i);
                }
                self.entries[i].1
            },
            None => GamepadBindingsConfig::default(),
        }
    }

    /// Stores the bindings for a gamepad type, replacing any stored before.
    pub fn set_bindings(&mut self, gamepad_type: String, bindings: GamepadBindingsConfig)
        ensures
            final(self)@ == old(self)@.insert(gamepad_type@, bindings),
    {
        proof {
            use_type_invariant(&*self);
        }
        let ghost old_entries = self.entries@;
        let found = self.find(gamepad_type.as_str());
        let mut entries = Vec::new();
        std::mem::swap(&mut entries, &mut self.entries);
        let ghost name = gamepad_type@;
        match found {
            Some(i) => {
                entries.set(i, (gamepad_type, bindings));
            },
            None => {
                entries.push((gamepad_type, bindings));
            },
        }
        proof {
            assert(distinct_names(entries@));
            assert forall|k: Seq<char>| #[trigger]
                has_name(entries@, k) == (has_name(old_entries, k) || k == name) by {
                if k == name {
                    match found {
                        Some(i) => assert(entries@[i as int].0@ == k),
                        None => assert(entries@[old_entries.len() as int].0@ == k),
                    }
                }
                if has_name(old_entries, k) {
                    let j = name_index(old_entries, k);
                    if k != name {
                        assert(entries@[j].0@ == k);
                    }
                }
                if has_name(entries@, k) && k != name {
                    let j = name_index(entries@, k);
                    assert(old_entries[j].0@ == k);
                }
            }
            assert forall|k: Seq<char>| has_name(entries@, k) implies entries@[name_index(
                entries@,
                k,
            )].1 == (if k == name {
                bindings
            } else {
                old_entries[name_index(old_entries, k)].1
            }) by {
                let j = name_index(entries@, k);
                if k == name {
                    match found {
                        Some(i) => assert(entries@[i as int].0@ == k),
                        None => assert(entries@[old_entries.len() as int].0@ == k),
                    }
                } else {
                    assert(old_entries[j].0@ == k);
                    assert(has_name(old_entries, k));
                }
            }
            assert(entries_map(entries@) =~= entries_map(old_entries).insert(name, bindings));
        }
        self.entries = entries;
    }

    /// The stored entries, one per gamepad type.
    pub fn entries(&self) -> (r: Vec<(String, GamepadBindingsConfig)>)
        ensures
            distinct_names(r@),
            entries_map(r@) == self@,
    {
        proof {
            use_type_invariant(self);
        }
        let n = self.entries.len();
        let mut r: Vec<(String, GamepadBindingsConfig)> = Vec::new();
        let mut i: usize = 0;
        while i < n
            invariant
                n == self.entries@.len(),
                i <= n,
                r@.len() == i,
                forall|j: int| 0 <= j < i ==> #[trigger] r@[j] == self.entries@[j],
            decreases n - i,
        {
            let name = self.entries[i].0.clone();
            r.push((name, self.entries[i].1));
            i = i + 1;
        }
        assert(r@ =~= self.entries@);
        r
    }
}

impl Default for GamepadBindingsMap {
    fn default() -> (r: Self)
        ensures
            r@ == Map::<Seq<char>, GamepadBindingsConfig>::empty(),
    {
        GamepadBindingsMap::new()
    }
}

// ============================================
// GamepadConfigUIState
// ============================================

/// State of the gamepad configuration screen.
#[derive(Debug)]
pub struct GamepadConfigUIState {
    /// Player whose gamepad is being configured (to return to afterwards).
    pub configuring_player_index: Option<usize>,
    /// Name of the gamepad type being configured.
    pub gamepad_type_name: Option<String>,
    /// Action being bound.
    pub rebinding_action: Option<GameAction>,
    /// Bindings being edited.
    pub pending_bindings: Option<GamepadBindingsConfig>,
    /// Status line.
    pub status_message: Option<String>,
    /// Last input seen (feedback).
    pub last_detected_input: Option<RawGamepadInput>,
}

impl GamepadConfigUIState {
    /// The state of a screen that configures nothing.
    pub open spec fn is_idle(self) -> bool {
        &&& self.configuring_player_index is None
        &&& self.gamepad_type_name is None
        &&& self.rebinding_action is None
        &&& self.pending_bindings is None
        &&& self.status_message is None
        &&& self.last_detected_input is None
    }

    /// Starts configuring the gamepad of `player_index`, of type
    /// `gamepad_type`, from `current_bindings`.
    pub fn start_config(
        &mut self,
        player_index: usize,
        gamepad_type: String,
        current_bindings: GamepadBindingsConfig,
    )
        ensures
            final(self).configuring_player_index == Some(player_index),
            final(self).gamepad_type_name == Some(gamepad_type),
            final(self).pending_bindings == Some(current_bindings),
            final(self).rebinding_action is None,
            final(self).status_message is None,
            final(self).last_detected_input is None,
    {
        self.configuring_player_index = Some(player_index);
        self.gamepad_type_name = Some(gamepad_type);
        self.pending_bindings = Some(current_bindings);
        self.rebinding_action = None;
        self.status_message = None;
        self.last_detected_input = None;
    }

    /// Waits for a new gamepad input for `action`, with a prompt saying so.
    pub fn start_rebind(&mut self, action: GameAction)
        ensures
            final(self).rebinding_action == Some(action),
            final(self).status_message matches Some(m) && m@ == gamepad_prompt(action),
            final(self).configuring_player_index == old(self).configuring_player_index,
            final(self).gamepad_type_name == old(self).gamepad_type_name,
            final(self).pending_bindings == old(self).pending_bindings,
            final(self).last_detected_input == old(self).last_detected_input,
    {
        self.rebinding_action = Some(action);
        let mut m = String::from_str("Presiona un botón/eje para '");
        m.append(action.display_name());
        m.append("'... (ESC para cancelar)");
        self.status_message = Some(m);
    }

    /// Stops waiting for an input and clears the prompt.
    pub fn cancel_rebind(&mut self)
        ensures
            final(self).rebinding_action is None,
            final(self).status_message is None,
            final(self).configuring_player_index == old(self).configuring_player_index,
            final(self).gamepad_type_name == old(self).gamepad_type_name,
            final(self).pending_bindings == old(self).pending_bindings,
            final(self).last_detected_input == old(self).last_detected_input,
    {
        self.rebinding_action = None;
        self.status_message = None;
    }

    /// Whether an input is being waited for.
    pub fn is_rebinding(&self) -> (r: bool)
        ensures
            r == (self.rebinding_action is Some),
    {
        self.rebinding_action.is_some()
    }

    /// Back to the idle state.
    pub fn reset(&mut self)
        ensures
            final(self).is_idle(),
    {
        *self = Self::default();
    }
}

impl Default for GamepadConfigUIState {
    fn default() -> (r: Self)
        ensures
            r.is_idle(),
    {
        GamepadConfigUIState {
            configuring_player_index: None,
            gamepad_type_name: None,
            rebinding_action: None,
            pending_bindings: None,
            status_message: None,
            last_detected_input: None,
        }
    }
}


// ============================================
// Curve key labels
// ============================================

/// The label of a gamepad input bound to a curve direction, `?` when none
/// is bound.
pub open spec fn curve_input_label(i: Option<RawGamepadInput>) -> Seq<char> {
    match i {
        Some(x) => gamepad_input_label(x),
        None => "?"@,
    }
}

fn curve_input_display(i: Option<RawGamepadInput>) -> (r: String)
    ensures
        r@ == curve_input_label(i),
{
    match i {
        Some(x) => x.display_name(),
        None => String::from_str("?"),
    }
}

/// The labels of the north, south, east and west curve controls shown next
/// to a local player: from the gamepad bindings when the player uses a
/// gamepad, else from the key bindings.
pub fn curve_key_labels(gamepad: Option<&GamepadBindingsConfig>, keyboard: &KeyBindingsConfig) -> (r: (
    String,
    String,
    String,
    String,
))
    ensures
        match gamepad {
            Some(g) => {
                &&& r.0@ == curve_input_label(g.curve_north)
                &&& r.1@ == curve_input_label(g.curve_south)
                &&& r.2@ == curve_input_label(g.curve_east)
                &&& r.3@ == curve_input_label(g.curve_west)
            },
            None => {
                &&& r.0@ == key_label(keyboard.curve_north.0)
                &&& r.1@ == key_label(keyboard.curve_south.0)
                &&& r.2@ == key_label(keyboard.curve_east.0)
                &&& r.3@ == key_label(keyboard.curve_west.0)
            },
        },
{
    match gamepad {
        Some(g) => (
            curve_input_display(g.curve_north),
            curve_input_display(g.curve_south),
            curve_input_display(g.curve_east),
            curve_input_display(g.curve_west),
        ),
        None => (
            key_code_display_name(keyboard.curve_north.0.duplicate()),
            key_code_display_name(keyboard.curve_south.0.duplicate()),
            key_code_display_name(keyboard.curve_east.0.duplicate()),
            key_code_display_name(keyboard.curve_west.0.duplicate()),
        ),
    }
}

// ============================================
// Laws
// ============================================

/// Binding a key to an action changes that action's key and no other.
pub proof fn law_key_binding_read_after_write(
    c: KeyBindingsConfig,
    a: GameAction,
    b: GameAction,
    k: KeyCode,
)
    ensures
        c.with_binding(a, k).binding(b) == (if a == b {
            k
        } else {
            c.binding(b)
        }),
        c.with_binding(a, c.binding(a)) == c,
{
}

/// The default key bindings give every action a different key.
pub proof fn law_default_keys_distinct(a: GameAction, b: GameAction)
    ensures
        a != b ==> KeyBindingsConfig::spec_default().binding(a)
            != KeyBindingsConfig::spec_default().binding(b),
{
}

/// Binding a gamepad input to an action changes that action's input and
/// no other.
pub proof fn law_gamepad_binding_read_after_write(
    c: GamepadBindingsConfig,
    a: GameAction,
    b: GameAction,
    i: Option<RawGamepadInput>,
)
    ensures
        c.with_binding(a, i).binding(b) == (if a == b {
            i
        } else {
            c.binding(b)
        }),
        c.with_binding(a, c.binding(a)) == c,
{
}

/// The default gamepad bindings bind every action, each to a different
/// input.
pub proof fn law_default_gamepad_inputs_distinct(a: GameAction, b: GameAction)
    ensures
        GamepadBindingsConfig::spec_default().binding(a) is Some,
        a != b ==> GamepadBindingsConfig::spec_default().binding(a)
            != GamepadBindingsConfig::spec_default().binding(b),
{
}

/// The actions list holds every action exactly once.
pub proof fn law_all_actions_listed_once(a: GameAction)
    ensures
        all_actions().len() == 12,
        all_actions().contains(a),
        forall|i: int, j: int|
            0 <= i < j < all_actions().len() ==> all_actions()[i] != all_actions()[j],
{
    match a {
        GameAction::MoveUp => assert(all_actions()[0] == a),
        GameAction::MoveDown => assert(all_actions()[1] == a),
        GameAction::MoveLeft => assert(all_actions()[2] == a),
        GameAction::MoveRight => assert(all_actions()[3] == a),
        GameAction::Kick => assert(all_actions()[4] == a),
        GameAction::CurveNorth => assert(all_actions()[5] == a),
        GameAction::CurveSouth => assert(all_actions()[6] == a),
        GameAction::CurveEast => assert(all_actions()[7] == a),
        GameAction::CurveWest => assert(all_actions()[8] == a),
        GameAction::Wildcard => assert(all_actions()[9] == a),
        GameAction::Sprint => assert(all_actions()[10] == a),
        GameAction::Mode => assert(all_actions()[11] == a),
    }
}

/// Reading the bindings of a gamepad type gives what was last stored for
/// it; storing for one type leaves the others alone; a type never stored
/// reads as the default bindings.
pub proof fn law_gamepad_map_read_after_write(
    m: Map<Seq<char>, GamepadBindingsConfig>,
    t: Seq<char>,
    u: Seq<char>,
    b: GamepadBindingsConfig,
)
    ensures
        bindings_in(m.insert(t, b), t) == b,
        t != u ==> bindings_in(m.insert(t, b), u) == bindings_in(m, u),
        bindings_in(Map::empty(), u) == GamepadBindingsConfig::spec_default(),
{
}

} // verus!
