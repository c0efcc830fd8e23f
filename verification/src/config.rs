//! Key bindings, keyboard input as the library sees it, and the resolution
//! of the `[keys]` table of the configuration file into bindings.
use vstd::prelude::*;

use crate::profiles::SourceProfiles;
use crate::text::{ascii_lower, is_ascii_char, is_ws, trim_end_ws, trim_start_ws, opt_view, char_string, chars_of, concat, lowercase_of, owned, push_all, to_lower, trim,
    trim_ws};

verus! {

// ---------------------------------------------------------------------------
// Keyboard input
// ---------------------------------------------------------------------------

/// Which key was pressed.
#[derive(Debug, Clone, Copy, PartialEq, Eq, Structural)]
pub enum KeyCode {
    Char(char),
    F(u8),
    Up,
    Down,
    Left,
    Right,
    Enter,
    Backspace,
    Tab,
    Esc,
    /// Any other key (Home, End, Delete, media keys, ...).
    Other,
}

/// The modifier keys held during a key press.
#[derive(Debug, Clone, Copy, PartialEq, Eq, Structural)]
pub struct KeyModifiers {
    pub shift: bool,
    pub control: bool,
    pub alt: bool,
    pub super_key: bool,
    pub hyper: bool,
    pub meta: bool,
}

impl KeyModifiers {
    /// No modifier held.
    pub fn none() -> (res: KeyModifiers)
        ensures
            res.is_empty_spec(),
    {
        KeyModifiers { shift: false, control: false, alt: false, super_key: false, hyper: false, meta: false }
    }

    /// Only Control held.
    pub fn control_only() -> (res: KeyModifiers)
        ensures
            res.is_control_only_spec(),
    {
        KeyModifiers { shift: false, control: true, alt: false, super_key: false, hyper: false, meta: false }
    }

    pub open spec fn is_empty_spec(self) -> bool {
        !self.shift && !self.control && !self.alt && !self.super_key && !self.hyper && !self.meta
    }

    pub open spec fn is_control_only_spec(self) -> bool {
        !self.shift && self.control && !self.alt && !self.super_key && !self.hyper && !self.meta
    }

    /// Neither Control nor Alt is held.
    pub open spec fn no_control_alt_spec(self) -> bool {
        !self.control && !self.alt
    }

    pub fn is_empty(self) -> (res: bool)
        ensures
            res == self.is_empty_spec(),
    {
        !self.shift && !self.control && !self.alt && !self.super_key && !self.hyper && !self.meta
    }

    pub fn is_control_only(self) -> (res: bool)
        ensures
            res == self.is_control_only_spec(),
    {
        !self.shift && self.control && !self.alt && !self.super_key && !self.hyper && !self.meta
    }

    pub fn no_control_alt(self) -> (res: bool)
        ensures
            res == self.no_control_alt_spec(),
    {
        !self.control && !self.alt
    }
}

/// One key press.
#[derive(Debug, Clone, Copy, PartialEq, Eq, Structural)]
pub struct KeyEvent {
    pub code: KeyCode,
    pub modifiers: KeyModifiers,
}

impl KeyEvent {
    pub fn new(code: KeyCode, modifiers: KeyModifiers) -> (res: KeyEvent)
        ensures
            res.code == code,
            res.modifiers == modifiers,
    {
        KeyEvent { code, modifiers }
    }
}

// ---------------------------------------------------------------------------
// Configurable keys
// ---------------------------------------------------------------------------

/// A key that a binding can name in the configuration file.
#[derive(Debug, Clone, Copy, PartialEq, Eq, Structural)]
pub enum ConfigurableKey {
    Char(char),
    Up,
    Down,
    Enter,
    Backspace,
    Tab,
    Esc,
    Left,
    Right,
}

/// Whether a text is one of the key names.
pub open spec fn is_key_name(n: Seq<char>) -> bool {
    n == "up"@ || n == "down"@ || n == "enter"@ || n == "backspace"@ || n == "tab"@ || n == "esc"@
        || n == "escape"@ || n == "left"@ || n == "right"@
}

/// The key a configuration value names, given its trimmed, lower-cased
/// form `n`: the key of that name, else the value's single character.
pub open spec fn key_from_name(n: Seq<char>, value: Seq<char>) -> Option<ConfigurableKey> {
    if n == "up"@ {
        Some(ConfigurableKey::Up)
    } else if n == "down"@ {
        Some(ConfigurableKey::Down)
    } else if n == "enter"@ {
        Some(ConfigurableKey::Enter)
    } else if n == "backspace"@ {
        Some(ConfigurableKey::Backspace)
    } else if n == "tab"@ {
        Some(ConfigurableKey::Tab)
    } else if n == "esc"@ || n == "escape"@ {
        Some(ConfigurableKey::Esc)
    } else if n == "left"@ {
        Some(ConfigurableKey::Left)
    } else if n == "right"@ {
        Some(ConfigurableKey::Right)
    } else if value.len() == 1 {
        Some(ConfigurableKey::Char(value[0]))
    } else {
        None
    }
}


/// The key named by a configuration value: one of the key names (ignoring
/// case and surrounding whitespace) or a single character.
pub open spec fn parse_key_spec(value: Seq<char>) -> Option<ConfigurableKey> {
    key_from_name(lowercase_of(trim_ws(value)), value)
}

/// The name under which a key is shown.
pub open spec fn key_label_spec(key: ConfigurableKey) -> Seq<char> {
    match key {
        ConfigurableKey::Char(ch) => seq![ch],
        ConfigurableKey::Up => "up"@,
        ConfigurableKey::Down => "down"@,
        ConfigurableKey::Enter => "enter"@,
        ConfigurableKey::Backspace => "backspace"@,
        ConfigurableKey::Tab => "tab"@,
        ConfigurableKey::Esc => "esc"@,
        ConfigurableKey::Left => "left"@,
        ConfigurableKey::Right => "right"@,
    }
}

/// Whether a key press triggers a binding: characters match with any
/// modifiers but Control and Alt, other keys only without modifiers.
pub open spec fn key_matches_spec(key: ConfigurableKey, event: KeyEvent) -> bool {
    match key {
        ConfigurableKey::Char(expected) => event.modifiers.no_control_alt_spec()
            && event.code == KeyCode::Char(expected),
        ConfigurableKey::Up => event.modifiers.is_empty_spec() && event.code == KeyCode::Up,
        ConfigurableKey::Down => event.modifiers.is_empty_spec() && event.code == KeyCode::Down,
        ConfigurableKey::Enter => event.modifiers.is_empty_spec() && event.code == KeyCode::Enter,
        ConfigurableKey::Backspace => event.modifiers.is_empty_spec() && event.code
            == KeyCode::Backspace,
        ConfigurableKey::Tab => event.modifiers.is_empty_spec() && event.code == KeyCode::Tab,
        ConfigurableKey::Esc => event.modifiers.is_empty_spec() && event.code == KeyCode::Esc,
        ConfigurableKey::Left => event.modifiers.is_empty_spec() && event.code == KeyCode::Left,
        ConfigurableKey::Right => event.modifiers.is_empty_spec() && event.code == KeyCode::Right,
    }
}

fn eq_lit(s: &str, lit: &str) -> (res: bool)
    ensures
        res == (s@ == lit@),
{
    crate::text::str_eq(s, lit)
}

impl ConfigurableKey {
    /// Reads a key from a configuration value.
    pub fn parse(value: &str) -> (res: Option<ConfigurableKey>)
        ensures
            res == parse_key_spec(value@),
    {
        let trimmed = trim(value);
        let normalized = to_lower(trimmed.as_str());
        Self::from_name(normalized.as_str(), value)
    }

    /// The key a configuration value names, given the value trimmed and
    /// lower-cased (see [`key_from_name`]).
    pub fn from_name(normalized: &str, value: &str) -> (res: Option<ConfigurableKey>)
        ensures
            res == key_from_name(normalized@, value@),
    {
        let n = normalized;
        if eq_lit(n, "up") {
            Some(ConfigurableKey::Up)
        } else if eq_lit(n, "down") {
            Some(ConfigurableKey::Down)
        } else if eq_lit(n, "enter") {
            Some(ConfigurableKey::Enter)
        } else if eq_lit(n, "backspace") {
            Some(ConfigurableKey::Backspace)
        } else if eq_lit(n, "tab") {
            Some(ConfigurableKey::Tab)
        } else if eq_lit(n, "esc") || eq_lit(n, "escape") {
            Some(ConfigurableKey::Esc)
        } else if eq_lit(n, "left") {
            Some(ConfigurableKey::Left)
        } else if eq_lit(n, "right") {
            Some(ConfigurableKey::Right)
        } else {
            let chars = chars_of(value);
            if chars.len() == 1 {
                Some(ConfigurableKey::Char(chars[0]))
            } else {
                None
            }
        }
    }

    /// Whether a key press triggers this key.
    pub fn matches(&self, event: KeyEvent) -> (res: bool)
        ensures
            res == key_matches_spec(*self, event),
    {
        let modifiers = event.modifiers;
        match self {
            ConfigurableKey::Char(expected) => modifiers.no_control_alt() && match event.code {
                KeyCode::Char(actual) => actual == *expected,
                _ => false,
            },
            ConfigurableKey::Up => modifiers.is_empty() && event.code == KeyCode::Up,
            ConfigurableKey::Down => modifiers.is_empty() && event.code == KeyCode::Down,
            ConfigurableKey::Enter => modifiers.is_empty() && event.code == KeyCode::Enter,
            ConfigurableKey::Backspace => modifiers.is_empty() && event.code == KeyCode::Backspace,
            ConfigurableKey::Tab => modifiers.is_empty() && event.code == KeyCode::Tab,
            ConfigurableKey::Esc => modifiers.is_empty() && event.code == KeyCode::Esc,
            ConfigurableKey::Left => modifiers.is_empty() && event.code == KeyCode::Left,
            ConfigurableKey::Right => modifiers.is_empty() && event.code == KeyCode::Right,
        }
    }

    /// The name under which the key is shown.
    pub fn label(&self) -> (res: String)
        ensures
            res@ == key_label_spec(*self),
    {
        match self {
            ConfigurableKey::Char(ch) => char_string(*ch),
            ConfigurableKey::Up => owned("up"),
            ConfigurableKey::Down => owned("down"),
            ConfigurableKey::Enter => owned("enter"),
            ConfigurableKey::Backspace => owned("backspace"),
            ConfigurableKey::Tab => owned("tab"),
            ConfigurableKey::Esc => owned("esc"),
            ConfigurableKey::Left => owned("left"),
            ConfigurableKey::Right => owned("right"),
        }
    }
}

} // verus!

verus! {

// ---------------------------------------------------------------------------
// Bindings
// ---------------------------------------------------------------------------

/// The keys bound to the configurable actions.
#[derive(Debug, Clone, Copy, PartialEq, Eq, Structural)]
pub struct KeyBindings {
    pub enter_command_mode: ConfigurableKey,
    pub quit: ConfigurableKey,
    pub switch_pane: ConfigurableKey,
    pub move_up: ConfigurableKey,
    pub move_down: ConfigurableKey,
    pub open: ConfigurableKey,
    pub parent: ConfigurableKey,
}

/// The bindings used when the configuration names none.
pub open spec fn default_bindings() -> KeyBindings {
    KeyBindings {
        enter_command_mode: ConfigurableKey::Char('/'),
        quit: ConfigurableKey::Char('q'),
        switch_pane: ConfigurableKey::Tab,
        move_up: ConfigurableKey::Up,
        move_down: ConfigurableKey::Down,
        open: ConfigurableKey::Enter,
        parent: ConfigurableKey::Backspace,
    }
}

impl Default for KeyBindings {
    fn default() -> (res: KeyBindings)
        ensures
            res == default_bindings(),
    {
        KeyBindings {
            enter_command_mode: ConfigurableKey::Char('/'),
            quit: ConfigurableKey::Char('q'),
            switch_pane: ConfigurableKey::Tab,
            move_up: ConfigurableKey::Up,
            move_down: ConfigurableKey::Down,
            open: ConfigurableKey::Enter,
            parent: ConfigurableKey::Backspace,
        }
    }
}

/// The `[keys]` table of the configuration file: the raw value of each
/// binding that the file sets.
#[derive(Debug, Clone, Default)]
pub struct KeysConfig {
    pub enter_command_mode: Option<String>,
    pub quit: Option<String>,
    pub switch_pane: Option<String>,
    pub move_up: Option<String>,
    pub move_down: Option<String>,
    pub open: Option<String>,
    pub parent: Option<String>,
}

/// What `format!("{:?}", s)` writes for a string slice (quoted, with
/// `char::escape_debug` escapes).
pub uninterp spec fn debug_text_of(s: Seq<char>) -> Seq<char>;

/// `<str as Debug>::fmt` through `format!`; the escape rules are named, not
/// restated.
#[verifier::external_body]
fn debug_quoted(s: &str) -> (res: String)
    ensures
        res@ == debug_text_of(s@),
{
    format!("{s:?}")
}

/// The key a binding ends up with: the configured key when the value names
/// one, the default otherwise.
pub open spec fn resolve_override(value: Option<Seq<char>>, default: ConfigurableKey) -> ConfigurableKey {
    match value {
        Some(raw) => match parse_key_spec(raw) {
            Some(key) => key,
            None => default,
        },
        None => default,
    }
}

/// The warning for a value that names no key.
pub open spec fn invalid_binding_message(field: Seq<char>, raw: Seq<char>, default: ConfigurableKey) -> Seq<char> {
    "invalid key binding for "@ + field + ": "@ + debug_text_of(raw) + "; using default "@
        + key_label_spec(default)
}

/// The warnings that resolving one binding adds.
pub open spec fn override_warnings(value: Option<Seq<char>>, default: ConfigurableKey, field: Seq<char>) -> Seq<Seq<char>> {
    match value {
        Some(raw) => if parse_key_spec(raw) is None {
            seq![invalid_binding_message(field, raw, default)]
        } else {
            Seq::empty()
        },
        None => Seq::empty(),
    }
}

/// Resolves one binding, adding a warning when the value names no key.
fn parse_override(
    value: Option<&str>,
    default: ConfigurableKey,
    field: &str,
    warnings: &mut Vec<String>,
) -> (res: ConfigurableKey)
    ensures
        res == resolve_override(
            match value {
                Some(v) => Some(v@),
                None => None,
            },
            default,
        ),
        final(warnings)@.map_values(|w: String| w@) == old(warnings)@.map_values(|w: String| w@)
            + override_warnings(
            match value {
                Some(v) => Some(v@),
                None => None,
            },
            default,
            field@,
        ),
{
    match value {
        Some(raw) => match ConfigurableKey::parse(raw) {
            Some(key) => {
                assert(old(warnings)@.map_values(|w: String| w@) + Seq::<Seq<char>>::empty()
                    =~= warnings@.map_values(|w: String| w@));
                key
            },
            None => {
                let mut message = concat("invalid key binding for ", field);
                push_all(&mut message, ": ");
                let quoted = debug_quoted(raw);
                push_all(&mut message, quoted.as_str());
                push_all(&mut message, "; using default ");
                let label = default.label();
                push_all(&mut message, label.as_str());
                let ghost before = warnings@.map_values(|w: String| w@);
                warnings.push(message);
                assert(warnings@.map_values(|w: String| w@) =~= before.push(message@));
                default
            },
        },
        None => {
            assert(old(warnings)@.map_values(|w: String| w@) + Seq::<Seq<char>>::empty()
                =~= warnings@.map_values(|w: String| w@));
            default
        },
    }
}

fn opt_str(value: &Option<String>) -> (res: Option<&str>)
    ensures
        match value {
            Some(v) => res is Some && res->0@ == v@,
            None => res is None,
        },
{
    match value {
        Some(v) => Some(v.as_str()),
        None => None,
    }
}

/// The `[keys]` table a file gives, or an empty one when it has none.
pub open spec fn keys_or_empty(keys: Option<KeysConfig>) -> KeysConfig {
    match keys {
        Some(k) => k,
        None => KeysConfig {
            enter_command_mode: None,
            quit: None,
            switch_pane: None,
            move_up: None,
            move_down: None,
            open: None,
            parent: None,
        },
    }
}

/// The bindings a file names, each falling back to its default, before
/// conflicts with the command trigger are settled.
pub open spec fn configured_bindings(keys: Option<KeysConfig>) -> KeyBindings {
    let d = default_bindings();
    let k = keys_or_empty(keys);
    KeyBindings {
        enter_command_mode: resolve_override(opt_view(k.enter_command_mode), d.enter_command_mode),
        quit: resolve_override(opt_view(k.quit), d.quit),
        switch_pane: resolve_override(opt_view(k.switch_pane), d.switch_pane),
        move_up: resolve_override(opt_view(k.move_up), d.move_up),
        move_down: resolve_override(opt_view(k.move_down), d.move_down),
        open: resolve_override(opt_view(k.open), d.open),
        parent: resolve_override(opt_view(k.parent), d.parent),
    }
}

/// The warnings for values that name no key, in field order.
pub open spec fn configured_warnings(keys: Option<KeysConfig>) -> Seq<Seq<char>> {
    let d = default_bindings();
    let k = keys_or_empty(keys);
    override_warnings(opt_view(k.enter_command_mode), d.enter_command_mode, "keys.enter_command_mode"@)
        + override_warnings(opt_view(k.quit), d.quit, "keys.quit"@)
        + override_warnings(opt_view(k.switch_pane), d.switch_pane, "keys.switch_pane"@)
        + override_warnings(opt_view(k.move_up), d.move_up, "keys.move_up"@)
        + override_warnings(opt_view(k.move_down), d.move_down, "keys.move_down"@)
        + override_warnings(opt_view(k.open), d.open, "keys.open"@)
        + override_warnings(opt_view(k.parent), d.parent, "keys.parent"@)
}

/// A binding that collides with the command trigger falls back to its
/// default: the command trigger takes precedence.
pub open spec fn settle(trigger: ConfigurableKey, key: ConfigurableKey, default: ConfigurableKey) -> ConfigurableKey {
    if trigger == key { default } else { key }
}

pub open spec fn conflict_warning(trigger: ConfigurableKey, key: ConfigurableKey, message: Seq<char>) -> Seq<Seq<char>> {
    if trigger == key { seq![message] } else { Seq::empty() }
}

/// The bindings after conflicts with the command trigger are settled.
pub open spec fn settled_bindings(b: KeyBindings) -> KeyBindings {
    let d = default_bindings();
    let t = b.enter_command_mode;
    KeyBindings {
        enter_command_mode: t,
        quit: settle(t, b.quit, d.quit),
        switch_pane: settle(t, b.switch_pane, d.switch_pane),
        move_up: settle(t, b.move_up, d.move_up),
        move_down: settle(t, b.move_down, d.move_down),
        open: settle(t, b.open, d.open),
        parent: settle(t, b.parent, d.parent),
    }
}

/// The warnings for conflicts with the command trigger, in field order.
pub open spec fn conflict_warnings(b: KeyBindings) -> Seq<Seq<char>> {
    let t = b.enter_command_mode;
    conflict_warning(t, b.quit, "command trigger conflicts with quit binding; command trigger takes precedence"@)
        + conflict_warning(t, b.switch_pane, "command trigger conflicts with switch pane binding; command trigger takes precedence"@)
        + conflict_warning(t, b.move_up, "command trigger conflicts with move up binding; command trigger takes precedence"@)
        + conflict_warning(t, b.move_down, "command trigger conflicts with move down binding; command trigger takes precedence"@)
        + conflict_warning(t, b.open, "command trigger conflicts with open binding; command trigger takes precedence"@)
        + conflict_warning(t, b.parent, "command trigger conflicts with parent binding; command trigger takes precedence"@)
}

pub open spec fn string_views(v: Seq<String>) -> Seq<Seq<char>> {
    v.map_values(|w: String| w@)
}

fn check_conflict(
    trigger: ConfigurableKey,
    key: &mut ConfigurableKey,
    default: ConfigurableKey,
    message: &str,
    warnings: &mut Vec<String>,
)
    ensures
        *final(key) == settle(trigger, *old(key), default),
        string_views(final(warnings)@) == string_views(old(warnings)@) + conflict_warning(
            trigger,
            *old(key),
            message@,
        ),
{
    if trigger == *key {
        let ghost before = string_views(warnings@);
        warnings.push(owned(message));
        assert(string_views(warnings@) =~= before.push(message@));
        *key = default;
    } else {
        assert(string_views(old(warnings)@) + Seq::<Seq<char>>::empty() =~= string_views(warnings@));
    }
}

fn configured(keys: &Option<KeysConfig>) -> (res: (KeyBindings, Vec<String>))
    ensures
        res.0 == configured_bindings(*keys),
        string_views(res.1@) == configured_warnings(*keys),
{
    let defaults = KeyBindings::default();
    let mut warnings: Vec<String> = Vec::new();
    let (v_cmd, v_quit, v_switch, v_up, v_down, v_open, v_parent) = match keys {
        Some(k) => (
            opt_str(&k.enter_command_mode),
            opt_str(&k.quit),
            opt_str(&k.switch_pane),
            opt_str(&k.move_up),
            opt_str(&k.move_down),
            opt_str(&k.open),
            opt_str(&k.parent),
        ),
        None => (None, None, None, None, None, None, None),
    };
    let ghost w0 = string_views(warnings@);
    let enter_command_mode = parse_override(v_cmd, defaults.enter_command_mode, "keys.enter_command_mode", &mut warnings);
    let quit = parse_override(v_quit, defaults.quit, "keys.quit", &mut warnings);
    let switch_pane = parse_override(v_switch, defaults.switch_pane, "keys.switch_pane", &mut warnings);
    let move_up = parse_override(v_up, defaults.move_up, "keys.move_up", &mut warnings);
    let move_down = parse_override(v_down, defaults.move_down, "keys.move_down", &mut warnings);
    let open = parse_override(v_open, defaults.open, "keys.open", &mut warnings);
    let parent = parse_override(v_parent, defaults.parent, "keys.parent", &mut warnings);
    proof {
        assert(w0 =~= Seq::<Seq<char>>::empty());
        assert(string_views(warnings@) =~= configured_warnings(*keys));
    }
    (KeyBindings { enter_command_mode, quit, switch_pane, move_up, move_down, open, parent }, warnings)
}

fn settle_conflicts(b: KeyBindings, warnings: &mut Vec<String>) -> (res: KeyBindings)
    ensures
        res == settled_bindings(b),
        string_views(final(warnings)@) == string_views(old(warnings)@) + conflict_warnings(b),
{
    let defaults = KeyBindings::default();
    let t = b.enter_command_mode;
    let mut quit = b.quit;
    let mut switch_pane = b.switch_pane;
    let mut move_up = b.move_up;
    let mut move_down = b.move_down;
    let mut open = b.open;
    let mut parent = b.parent;
    check_conflict(t, &mut quit, defaults.quit,
        "command trigger conflicts with quit binding; command trigger takes precedence", warnings);
    check_conflict(t, &mut switch_pane, defaults.switch_pane,
        "command trigger conflicts with switch pane binding; command trigger takes precedence", warnings);
    check_conflict(t, &mut move_up, defaults.move_up,
        "command trigger conflicts with move up binding; command trigger takes precedence", warnings);
    check_conflict(t, &mut move_down, defaults.move_down,
        "command trigger conflicts with move down binding; command trigger takes precedence", warnings);
    check_conflict(t, &mut open, defaults.open,
        "command trigger conflicts with open binding; command trigger takes precedence", warnings);
    check_conflict(t, &mut parent, defaults.parent,
        "command trigger conflicts with parent binding; command trigger takes precedence", warnings);
    proof {
        assert(string_views(warnings@) =~= string_views(old(warnings)@) + conflict_warnings(b));
    }
    KeyBindings { enter_command_mode: t, quit, switch_pane, move_up, move_down, open, parent }
}

/// Resolves the `[keys]` table: each binding the file names replaces its
/// default when it names a key, then bindings that collide with the command
/// trigger fall back to their defaults.  Returns the bindings and the
/// warnings, invalid values first, then conflicts.
pub fn resolve_key_bindings(keys: &Option<KeysConfig>) -> (res: (KeyBindings, Vec<String>))
    ensures
        res.0 == settled_bindings(configured_bindings(*keys)),
        string_views(res.1@) == configured_warnings(*keys) + conflict_warnings(configured_bindings(*keys)),
{
    let (bindings, mut warnings) = configured(keys);
    let settled = settle_conflicts(bindings, &mut warnings);
    (settled, warnings)
}

} // verus!

verus! {

// ---------------------------------------------------------------------------
// Configuration
// ---------------------------------------------------------------------------

/// The settings the application runs with.
#[derive(Debug)]
pub struct Config {
    pub key_bindings: KeyBindings,
    pub startup_warnings: Vec<String>,
    pub sources: SourceProfiles,
}

/// The contents of `config.toml` as read from disk.
#[derive(Debug)]
pub struct ConfigFile {
    pub keys: Option<KeysConfig>,
    pub sources: SourceProfiles,
}

impl Default for Config {
    fn default() -> (res: Config)
        ensures
            res.key_bindings == default_bindings(),
            res.startup_warnings@.len() == 0,
            res.sources.local.ids().len() == 0,
            res.sources.ftp.ids().len() == 0,
            res.sources.smb.ids().len() == 0,
            res.sources.ssh.ids().len() == 0,
    {
        Config {
            key_bindings: KeyBindings::default(),
            startup_warnings: Vec::new(),
            sources: SourceProfiles::new(),
        }
    }
}

impl Config {
    /// The configuration a file describes: its key bindings resolved (see
    /// [`resolve_key_bindings`]) and its saved sources.
    pub fn from_file(file: ConfigFile) -> (res: Config)
        ensures
            res.key_bindings == settled_bindings(configured_bindings(file.keys)),
            string_views(res.startup_warnings@) == configured_warnings(file.keys)
                + conflict_warnings(configured_bindings(file.keys)),
            res.sources == file.sources,
    {
        let (key_bindings, startup_warnings) = resolve_key_bindings(&file.keys);
        Config { key_bindings, startup_warnings, sources: file.sources }
    }
}

/// After the `[keys]` table is resolved, a binding equals the command
/// trigger only when the trigger is that binding's default: the command
/// trigger takes precedence over every other binding.
pub proof fn law_command_trigger_takes_precedence(keys: Option<KeysConfig>)
    ensures
        ({
            let b = settled_bindings(configured_bindings(keys));
            let d = default_bindings();
            &&& b.quit == b.enter_command_mode ==> b.quit == d.quit
            &&& b.switch_pane == b.enter_command_mode ==> b.switch_pane == d.switch_pane
            &&& b.move_up == b.enter_command_mode ==> b.move_up == d.move_up
            &&& b.move_down == b.enter_command_mode ==> b.move_down == d.move_down
            &&& b.open == b.enter_command_mode ==> b.open == d.open
            &&& b.parent == b.enter_command_mode ==> b.parent == d.parent
        }),
{
}

/// A file without a `[keys]` table gives the default bindings and no
/// warnings.
pub proof fn law_missing_keys_give_defaults()
    ensures
        settled_bindings(configured_bindings(None)) == default_bindings(),
        configured_warnings(None) + conflict_warnings(configured_bindings(None)) == Seq::<
            Seq<char>,
        >::empty(),
{
    let d = default_bindings();
    assert(configured_bindings(None) == d);
    assert(configured_warnings(None) =~= Seq::<Seq<char>>::empty());
    assert(conflict_warnings(d) =~= Seq::<Seq<char>>::empty());
    assert(settled_bindings(d) == d);
}

} // verus!

verus! {

/// The lower-case mapping named by `lowercase_of` is the ASCII one on `s`
/// when `s` is made of ASCII characters (what `to_lower` promises of every
/// text it is given).
pub open spec fn lowercase_is_ascii_on(s: Seq<char>) -> bool {
    (forall|i: int| 0 <= i < s.len() ==> is_ascii_char(#[trigger] s[i])) ==> lowercase_of(s) == s.map_values(
        |c: char| ascii_lower(c),
    )
}

proof fn lemma_lower_name(n: Seq<char>)
    requires
        lowercase_is_ascii_on(n),
        forall|i: int| 0 <= i < n.len() ==> 'a' <= #[trigger] n[i] && n[i] <= 'z',
    ensures
        lowercase_of(n) == n,
{
    assert forall|i: int| 0 <= i < n.len() implies is_ascii_char(#[trigger] n[i]) by {
        assert('a' <= n[i] && n[i] <= 'z');
    }
    assert(n.map_values(|c: char| ascii_lower(c)) =~= n);
}

proof fn lemma_trim_plain(n: Seq<char>)
    requires
        n.len() > 0,
        !is_ws(n[0]),
        !is_ws(n.last()),
    ensures
        trim_ws(n) == n,
{
}

proof fn lemma_name_label(n: Seq<char>)
    requires
        lowercase_is_ascii_on(trim_ws(n)),
        n.len() > 0,
        forall|i: int| 0 <= i < n.len() ==> 'a' <= #[trigger] n[i] && n[i] <= 'z',
    ensures
        lowercase_of(trim_ws(n)) == n,
{
    assert('a' <= n[0] && n[0] <= 'z');
    assert('a' <= n[n.len() - 1] && n[n.len() - 1] <= 'z');
    lemma_trim_plain(n);
    lemma_lower_name(n);
}

/// Reading a key's label back as a configuration value gives the key.  For
/// a character key whose character is not ASCII, this rests on its
/// lower-case form not being a key name.
pub proof fn law_parse_label_round_trip(k: ConfigurableKey)
    requires
        lowercase_is_ascii_on(trim_ws(key_label_spec(k))),
        k matches ConfigurableKey::Char(c) ==> is_ascii_char(c) || !is_key_name(lowercase_of(trim_ws(seq![c]))),
    ensures
        parse_key_spec(key_label_spec(k)) == Some(k),
{
    reveal_strlit("up");
    reveal_strlit("down");
    reveal_strlit("enter");
    reveal_strlit("backspace");
    reveal_strlit("tab");
    reveal_strlit("esc");
    reveal_strlit("escape");
    reveal_strlit("left");
    reveal_strlit("right");
    let l = key_label_spec(k);
    match k {
        ConfigurableKey::Char(c) => {
            let t = trim_ws(seq![c]);
            if is_ws(c) {
                let e = Seq::<char>::empty();
                assert(seq![c].drop_last() =~= e);
                assert(trim_end_ws(e) == e);
                assert(trim_end_ws(seq![c]) == trim_end_ws(e));
                assert(trim_start_ws(e) == e);
                assert(t =~= e);
                assert(t.map_values(|c: char| ascii_lower(c)) =~= t);
            } else {
                assert(t =~= seq![c]);
                if is_ascii_char(c) {
                    assert(lowercase_of(t) == t.map_values(|c: char| ascii_lower(c)));
                    assert(lowercase_of(t).len() == 1);
                }
            }
            assert(!is_key_name(lowercase_of(t)));
        },
        _ => {
            assert forall|i: int| 0 <= i < l.len() implies 'a' <= #[trigger] l[i] && l[i] <= 'z' by {}
            lemma_name_label(l);
        },
    }
}

} // verus!
