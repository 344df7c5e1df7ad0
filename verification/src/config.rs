//! The configuration document and how an update merges into it.
//!
//! The two animation settings that are fractions are held as the bits of a
//! single-precision number: the library stores and hands them on, and never
//! computes with them.

use vstd::prelude::*;
use vstd::string::*;

verus! {

/// The bits of the single-precision number 80.
pub const DEFAULT_TYPING_SPEED: u32 = 0x42A0_0000;

/// The bits of the single-precision number nearest to 0.2.
pub const DEFAULT_TYPING_VARIATION: u32 = 0x3E4C_CCCD;

/// Colours and mode of the user interface.
#[derive(Debug)]
pub struct Theme {
    pub mode: String,
    pub primary_color: String,
    pub secondary_color: String,
}

/// How the editor shows and saves text.
#[derive(Debug)]
pub struct EditorConfig {
    pub font_size: u32,
    pub font_family: String,
    pub tab_size: u32,
    pub word_wrap: bool,
    pub auto_save: bool,
    pub auto_save_delay: u32,
}

/// How typing and the cursor are animated. `typing_speed`, in characters a
/// second, and `typing_variation` are bits of single-precision numbers.
#[derive(Clone, Copy, Debug, PartialEq, Eq, Structural)]
pub struct AnimationConfig {
    pub typing_speed: u32,
    pub typing_variation: u32,
    pub cursor_blink_rate: u32,
    pub smooth_scrolling: bool,
    pub enable_animations: bool,
}

/// Where the server listens and what it admits.
#[derive(Debug)]
pub struct ApiConfig {
    pub port: u16,
    pub host: String,
    pub max_connections: usize,
    pub timeout: u32,
}

/// The whole configuration document.
#[derive(Debug)]
pub struct AppConfig {
    pub theme: Theme,
    pub editor: EditorConfig,
    pub animation: AnimationConfig,
    pub api: ApiConfig,
}

/// The mathematical value of a `Theme`.
pub struct ThemeSpec {
    pub mode: Seq<char>,
    pub primary_color: Seq<char>,
    pub secondary_color: Seq<char>,
}

/// The mathematical value of an `EditorConfig`.
pub struct EditorSpec {
    pub font_size: u32,
    pub font_family: Seq<char>,
    pub tab_size: u32,
    pub word_wrap: bool,
    pub auto_save: bool,
    pub auto_save_delay: u32,
}

/// The mathematical value of an `ApiConfig`.
pub struct ApiSpec {
    pub port: u16,
    pub host: Seq<char>,
    pub max_connections: usize,
    pub timeout: u32,
}

/// The mathematical value of an `AppConfig`.
pub struct ConfigSpec {
    pub theme: ThemeSpec,
    pub editor: EditorSpec,
    pub animation: AnimationConfig,
    pub api: ApiSpec,
}

impl View for Theme {
    type V = ThemeSpec;

    open spec fn view(&self) -> ThemeSpec {
        ThemeSpec {
            mode: self.mode@,
            primary_color: self.primary_color@,
            secondary_color: self.secondary_color@,
        }
    }
}

impl View for EditorConfig {
    type V = EditorSpec;

    open spec fn view(&self) -> EditorSpec {
        EditorSpec {
            font_size: self.font_size,
            font_family: self.font_family@,
            tab_size: self.tab_size,
            word_wrap: self.word_wrap,
            auto_save: self.auto_save,
            auto_save_delay: self.auto_save_delay,
        }
    }
}

impl View for ApiConfig {
    type V = ApiSpec;

    open spec fn view(&self) -> ApiSpec {
        ApiSpec {
            port: self.port,
            host: self.host@,
            max_connections: self.max_connections,
            timeout: self.timeout,
        }
    }
}

impl View for AppConfig {
    type V = ConfigSpec;

    open spec fn view(&self) -> ConfigSpec {
        ConfigSpec {
            theme: self.theme@,
            editor: self.editor@,
            animation: self.animation,
            api: self.api@,
        }
    }
}

/// The configuration that a new installation starts with.
pub open spec fn default_config() -> ConfigSpec {
    ConfigSpec {
        theme: ThemeSpec {
            mode: "dark"@,
            primary_color: "#007ACC"@,
            secondary_color: "#1E1E1E"@,
        },
        editor: EditorSpec {
            font_size: 14,
            font_family: "Cascadia Code, Consolas, monospace"@,
            tab_size: 4,
            word_wrap: false,
            auto_save: true,
            auto_save_delay: 3000,
        },
        animation: AnimationConfig {
            typing_speed: DEFAULT_TYPING_SPEED,
            typing_variation: DEFAULT_TYPING_VARIATION,
            cursor_blink_rate: 530,
            smooth_scrolling: true,
            enable_animations: true,
        },
        api: ApiSpec { port: 3030, host: "127.0.0.1"@, max_connections: 100, timeout: 30 },
    }
}

impl Default for AppConfig {
    /// The configuration that a new installation starts with.
    fn default() -> (c: Self)
        ensures
            c@ == default_config(),
    {
        AppConfig {
            theme: Theme {
                mode: String::from_str("dark"),
                primary_color: String::from_str("#007ACC"),
                secondary_color: String::from_str("#1E1E1E"),
            },
            editor: EditorConfig {
                font_size: 14,
                font_family: String::from_str("Cascadia Code, Consolas, monospace"),
                tab_size: 4,
                word_wrap: false,
                auto_save: true,
                auto_save_delay: 3000,
            },
            animation: AnimationConfig {
                typing_speed: DEFAULT_TYPING_SPEED,
                typing_variation: DEFAULT_TYPING_VARIATION,
                cursor_blink_rate: 530,
                smooth_scrolling: true,
                enable_animations: true,
            },
            api: ApiConfig {
                port: 3030,
                host: String::from_str("127.0.0.1"),
                max_connections: 100,
                timeout: 30,
            },
        }
    }
}

impl Clone for AppConfig {
    /// A copy of this configuration.
    fn clone(&self) -> (c: Self)
        ensures
            c@ == self@,
    {
        AppConfig {
            theme: Theme {
                mode: self.theme.mode.clone(),
                primary_color: self.theme.primary_color.clone(),
                secondary_color: self.theme.secondary_color.clone(),
            },
            editor: EditorConfig {
                font_size: self.editor.font_size,
                font_family: self.editor.font_family.clone(),
                tab_size: self.editor.tab_size,
                word_wrap: self.editor.word_wrap,
                auto_save: self.editor.auto_save,
                auto_save_delay: self.editor.auto_save_delay,
            },
            animation: self.animation,
            api: ApiConfig {
                port: self.api.port,
                host: self.api.host.clone(),
                max_connections: self.api.max_connections,
                timeout: self.api.timeout,
            },
        }
    }
}

/// What an update says of the theme: for each setting the new value, or
/// nothing.
#[derive(Debug)]
pub struct ThemePatch {
    pub mode: Option<String>,
    pub primary_color: Option<String>,
    pub secondary_color: Option<String>,
}

/// What an update says of the editor. Numbers come as they stand in the
/// document, in 64 bits.
#[derive(Debug)]
pub struct EditorPatch {
    pub font_size: Option<u64>,
    pub font_family: Option<String>,
    pub tab_size: Option<u64>,
    pub word_wrap: Option<bool>,
    pub auto_save: Option<bool>,
    pub auto_save_delay: Option<u64>,
}

/// What an update says of the animation. The two fractions come as bits of
/// single-precision numbers.
#[derive(Clone, Copy, Debug)]
pub struct AnimationPatch {
    pub typing_speed: Option<u32>,
    pub typing_variation: Option<u32>,
    pub cursor_blink_rate: Option<u64>,
    pub smooth_scrolling: Option<bool>,
    pub enable_animations: Option<bool>,
}

/// An update of the configuration: what it recognised of an untyped
/// document. A setting that the document does not hold, or holds with a
/// value of another kind, is nothing here.
#[derive(Debug)]
pub struct SettingsPatch {
    pub theme: ThemePatch,
    pub editor: EditorPatch,
    pub animation: AnimationPatch,
}

/// The mathematical value of a `ThemePatch`.
pub struct ThemePatchSpec {
    pub mode: Option<Seq<char>>,
    pub primary_color: Option<Seq<char>>,
    pub secondary_color: Option<Seq<char>>,
}

/// The mathematical value of an `EditorPatch`.
pub struct EditorPatchSpec {
    pub font_size: Option<u64>,
    pub font_family: Option<Seq<char>>,
    pub tab_size: Option<u64>,
    pub word_wrap: Option<bool>,
    pub auto_save: Option<bool>,
    pub auto_save_delay: Option<u64>,
}

/// The mathematical value of a `SettingsPatch`.
pub struct PatchSpec {
    pub theme: ThemePatchSpec,
    pub editor: EditorPatchSpec,
    pub animation: AnimationPatch,
}

/// The view of an optional string.
pub open spec fn text_value(s: Option<String>) -> Option<Seq<char>> {
    match s {
        Some(t) => Some(t@),
        None => None,
    }
}

impl View for ThemePatch {
    type V = ThemePatchSpec;

    open spec fn view(&self) -> ThemePatchSpec {
        ThemePatchSpec {
            mode: text_value(self.mode),
            primary_color: text_value(self.primary_color),
            secondary_color: text_value(self.secondary_color),
        }
    }
}

impl View for EditorPatch {
    type V = EditorPatchSpec;

    open spec fn view(&self) -> EditorPatchSpec {
        EditorPatchSpec {
            font_size: self.font_size,
            font_family: text_value(self.font_family),
            tab_size: self.tab_size,
            word_wrap: self.word_wrap,
            auto_save: self.auto_save,
            auto_save_delay: self.auto_save_delay,
        }
    }
}

impl View for SettingsPatch {
    type V = PatchSpec;

    open spec fn view(&self) -> PatchSpec {
        PatchSpec { theme: self.theme@, editor: self.editor@, animation: self.animation }
    }
}

/// What a document holds under a name: a text, a switch, a number, or
/// something that no setting takes. A number is given twice, as far as it
/// can be: as a whole number, where it is one and not negative, and as the
/// bits of the single-precision number nearest to it.
#[derive(Debug)]
pub enum SettingValue {
    Text { text: String },
    Switch { on: bool },
    Number { whole: Option<u64>, single: Option<u32> },
    Other,
}

/// The mathematical value of a `SettingValue`.
pub enum ValueSpec {
    Text { text: Seq<char> },
    Switch { on: bool },
    Number { whole: Option<u64>, single: Option<u32> },
    Other,
}

impl View for SettingValue {
    type V = ValueSpec;

    open spec fn view(&self) -> ValueSpec {
        match self {
            SettingValue::Text { text } => ValueSpec::Text { text: text@ },
            SettingValue::Switch { on } => ValueSpec::Switch { on: *on },
            SettingValue::Number { whole, single } => ValueSpec::Number {
                whole: *whole,
                single: *single,
            },
            SettingValue::Other => ValueSpec::Other,
        }
    }
}

impl ValueSpec {
    /// The text, where this is one.
    pub open spec fn as_text(self) -> Option<Seq<char>> {
        match self {
            ValueSpec::Text { text } => Some(text),
            _ => None,
        }
    }

    /// The switch, where this is one.
    pub open spec fn as_switch(self) -> Option<bool> {
        match self {
            ValueSpec::Switch { on } => Some(on),
            _ => None,
        }
    }

    /// The whole number, where this is one that is not negative.
    pub open spec fn as_whole(self) -> Option<u64> {
        match self {
            ValueSpec::Number { whole, single } => whole,
            _ => None,
        }
    }

    /// The bits of the single-precision number, where this is a number
    /// that has one.
    pub open spec fn as_single(self) -> Option<u32> {
        match self {
            ValueSpec::Number { whole, single } => single,
            _ => None,
        }
    }
}

/// What an update says of a setting once a value was seen under `section`
/// and `field`: the value, where the setting is the one named `in_section`
/// and `named` and the value is of its kind; what it said before otherwise.
pub open spec fn slot<T>(
    before: Option<T>,
    section: Seq<char>,
    field: Seq<char>,
    in_section: Seq<char>,
    named: Seq<char>,
    value: Option<T>,
) -> Option<T> {
    if section == in_section && field == named && value is Some {
        value
    } else {
        before
    }
}

impl PatchSpec {
    /// The update that says nothing.
    pub open spec fn empty() -> PatchSpec {
        PatchSpec {
            theme: ThemePatchSpec { mode: None, primary_color: None, secondary_color: None },
            editor: EditorPatchSpec {
                font_size: None,
                font_family: None,
                tab_size: None,
                word_wrap: None,
                auto_save: None,
                auto_save_delay: None,
            },
            animation: AnimationPatch {
                typing_speed: None,
                typing_variation: None,
                cursor_blink_rate: None,
                smooth_scrolling: None,
                enable_animations: None,
            },
        }
    }

    /// This update after `value` was seen under `field` of `section`. The
    /// settings that an update can give are those of the sections `theme`,
    /// `editor` and `animation`; a name that is none of them, or a value of
    /// another kind than the setting has, changes nothing.
    pub open spec fn recorded(self, section: Seq<char>, field: Seq<char>, value: ValueSpec)
        -> PatchSpec {
        let text = value.as_text();
        let whole = value.as_whole();
        let switch = value.as_switch();
        let single = value.as_single();
        PatchSpec {
            theme: ThemePatchSpec {
                mode: slot(self.theme.mode, section, field, "theme"@, "mode"@, text),
                primary_color: slot(
                    self.theme.primary_color,
                    section,
                    field,
                    "theme"@,
                    "primary_color"@,
                    text,
                ),
                secondary_color: slot(
                    self.theme.secondary_color,
                    section,
                    field,
                    "theme"@,
                    "secondary_color"@,
                    text,
                ),
            },
            editor: EditorPatchSpec {
                font_size: slot(
                    self.editor.font_size,
                    section,
                    field,
                    "editor"@,
                    "font_size"@,
                    whole,
                ),
                font_family: slot(
                    self.editor.font_family,
                    section,
                    field,
                    "editor"@,
                    "font_family"@,
                    text,
                ),
                tab_size: slot(self.editor.tab_size, section, field, "editor"@, "tab_size"@, whole),
                word_wrap: slot(
                    self.editor.word_wrap,
                    section,
                    field,
                    "editor"@,
                    "word_wrap"@,
                    switch,
                ),
                auto_save: slot(
                    self.editor.auto_save,
                    section,
                    field,
                    "editor"@,
                    "auto_save"@,
                    switch,
                ),
                auto_save_delay: slot(
                    self.editor.auto_save_delay,
                    section,
                    field,
                    "editor"@,
                    "auto_save_delay"@,
                    whole,
                ),
            },
            animation: AnimationPatch {
                typing_speed: slot(
                    self.animation.typing_speed,
                    section,
                    field,
                    "animation"@,
                    "typing_speed"@,
                    single,
                ),
                typing_variation: slot(
                    self.animation.typing_variation,
                    section,
                    field,
                    "animation"@,
                    "typing_variation"@,
                    single,
                ),
                cursor_blink_rate: slot(
                    self.animation.cursor_blink_rate,
                    section,
                    field,
                    "animation"@,
                    "cursor_blink_rate"@,
                    whole,
                ),
                smooth_scrolling: slot(
                    self.animation.smooth_scrolling,
                    section,
                    field,
                    "animation"@,
                    "smooth_scrolling"@,
                    switch,
                ),
                enable_animations: slot(
                    self.animation.enable_animations,
                    section,
                    field,
                    "animation"@,
                    "enable_animations"@,
                    switch,
                ),
            },
        }
    }
}

/// The low 32 bits of `n`: what a number of the document becomes where the
/// setting has 32 bits.
pub open spec fn low_bits(n: u64) -> u32 {
    (n % 0x1_0000_0000) as u32
}

/// The new text where the update gives one, the old text otherwise.
pub open spec fn merged_text(old: Seq<char>, new: Option<Seq<char>>) -> Seq<char> {
    match new {
        Some(s) => s,
        None => old,
    }
}

/// The low bits of the new number where the update gives one, the old
/// number otherwise.
pub open spec fn merged_number(old: u32, new: Option<u64>) -> u32 {
    match new {
        Some(n) => low_bits(n),
        None => old,
    }
}

/// The new value where the update gives one, the old value otherwise.
pub open spec fn merged<T>(old: T, new: Option<T>) -> T {
    match new {
        Some(v) => v,
        None => old,
    }
}

impl ConfigSpec {
    /// This configuration with `patch` merged in, setting by setting. What
    /// the update does not give stays; the server's own settings always stay.
    pub open spec fn updated(self, patch: PatchSpec) -> ConfigSpec {
        ConfigSpec {
            theme: ThemeSpec {
                mode: merged_text(self.theme.mode, patch.theme.mode),
                primary_color: merged_text(self.theme.primary_color, patch.theme.primary_color),
                secondary_color: merged_text(
                    self.theme.secondary_color,
                    patch.theme.secondary_color,
                ),
            },
            editor: EditorSpec {
                font_size: merged_number(self.editor.font_size, patch.editor.font_size),
                font_family: merged_text(self.editor.font_family, patch.editor.font_family),
                tab_size: merged_number(self.editor.tab_size, patch.editor.tab_size),
                word_wrap: merged(self.editor.word_wrap, patch.editor.word_wrap),
                auto_save: merged(self.editor.auto_save, patch.editor.auto_save),
                auto_save_delay: merged_number(
                    self.editor.auto_save_delay,
                    patch.editor.auto_save_delay,
                ),
            },
            animation: AnimationConfig {
                typing_speed: merged(self.animation.typing_speed, patch.animation.typing_speed),
                typing_variation: merged(
                    self.animation.typing_variation,
                    patch.animation.typing_variation,
                ),
                cursor_blink_rate: merged_number(
                    self.animation.cursor_blink_rate,
                    patch.animation.cursor_blink_rate,
                ),
                smooth_scrolling: merged(
                    self.animation.smooth_scrolling,
                    patch.animation.smooth_scrolling,
                ),
                enable_animations: merged(
                    self.animation.enable_animations,
                    patch.animation.enable_animations,
                ),
            },
            api: self.api,
        }
    }
}

/// The low 32 bits of `n`.
fn low(n: u64) -> (out: u32)
    ensures
        out == low_bits(n),
{
    (n % 0x1_0000_0000) as u32
}

/// Puts the new text into `place` where the update gives one.
fn merge_text(place: &mut String, new: &Option<String>)
    ensures
        final(place)@ == merged_text(old(place)@, text_value(*new)),
{
    match new {
        Some(s) => {
            *place = s.clone();
        },
        None => {},
    }
}

/// Puts the low bits of the new number into `place` where the update gives
/// one.
fn merge_number(place: &mut u32, new: Option<u64>)
    ensures
        *final(place) == merged_number(*old(place), new),
{
    match new {
        Some(n) => {
            *place = low(n);
        },
        None => {},
    }
}

/// Puts the new bits into `place` where the update gives some.
fn merge_bits(place: &mut u32, new: Option<u32>)
    ensures
        *final(place) == merged(*old(place), new),
{
    match new {
        Some(v) => {
            *place = v;
        },
        None => {},
    }
}

/// Puts the new switch into `place` where the update gives one.
fn merge_switch(place: &mut bool, new: Option<bool>)
    ensures
        *final(place) == merged(*old(place), new),
{
    match new {
        Some(v) => {
            *place = v;
        },
        None => {},
    }
}

impl AppConfig {
    /// Merges `patch` into this configuration, setting by setting. Nothing
    /// is validated.
    pub fn update_settings(&mut self, patch: &SettingsPatch)
        ensures
            final(self)@ == old(self)@.updated(patch@),
    {
        merge_text(&mut self.theme.mode, &patch.theme.mode);
        merge_text(&mut self.theme.primary_color, &patch.theme.primary_color);
        merge_text(&mut self.theme.secondary_color, &patch.theme.secondary_color);
        merge_number(&mut self.editor.font_size, patch.editor.font_size);
        merge_text(&mut self.editor.font_family, &patch.editor.font_family);
        merge_number(&mut self.editor.tab_size, patch.editor.tab_size);
        merge_switch(&mut self.editor.word_wrap, patch.editor.word_wrap);
        merge_switch(&mut self.editor.auto_save, patch.editor.auto_save);
        merge_number(&mut self.editor.auto_save_delay, patch.editor.auto_save_delay);
        merge_bits(&mut self.animation.typing_speed, patch.animation.typing_speed);
        merge_bits(&mut self.animation.typing_variation, patch.animation.typing_variation);
        merge_number(&mut self.animation.cursor_blink_rate, patch.animation.cursor_blink_rate);
        merge_switch(&mut self.animation.smooth_scrolling, patch.animation.smooth_scrolling);
        merge_switch(&mut self.animation.enable_animations, patch.animation.enable_animations);
    }

    /// A copy of this configuration.
    pub fn get_settings(&self) -> (c: AppConfig)
        ensures
            c@ == self@,
    {
        self.clone()
    }
}

/// Whether `section` and `field` are the names `in_section` and `named`.
fn names(section: &str, field: &str, in_section: &str, named: &str) -> (b: bool)
    ensures
        b == (section@ == in_section@ && field@ == named@),
{
    let s = String::from_str(section) == String::from_str(in_section);
    let f = String::from_str(field) == String::from_str(named);
    s && f
}

/// Puts `value` into `place` where `hit` holds and there is a value.
fn fill<T>(place: &mut Option<T>, hit: bool, value: Option<T>)
    ensures
        *final(place) == (if hit && value is Some {
            value
        } else {
            *old(place)
        }),
{
    if hit {
        match value {
            Some(v) => {
                *place = Some(v);
            },
            None => {},
        }
    }
}

/// Puts a copy of `value` into `place` where `hit` holds and there is a
/// value.
fn fill_text(place: &mut Option<String>, hit: bool, value: &Option<String>)
    ensures
        text_value(*final(place)) == (if hit && value is Some {
            text_value(*value)
        } else {
            text_value(*old(place))
        }),
{
    if hit {
        match value {
            Some(v) => {
                *place = Some(v.clone());
            },
            None => {},
        }
    }
}

impl SettingValue {
    /// A copy of the text, where this is one.
    pub fn text(&self) -> (t: Option<String>)
        ensures
            text_value(t) == self@.as_text(),
    {
        match self {
            SettingValue::Text { text } => Some(text.clone()),
            _ => None,
        }
    }

    /// The switch, where this is one.
    pub fn switch(&self) -> (b: Option<bool>)
        ensures
            b == self@.as_switch(),
    {
        match self {
            SettingValue::Switch { on } => Some(*on),
            _ => None,
        }
    }

    /// The whole number, where this is one that is not negative.
    pub fn whole(&self) -> (n: Option<u64>)
        ensures
            n == self@.as_whole(),
    {
        match self {
            SettingValue::Number { whole, single } => *whole,
            _ => None,
        }
    }

    /// The bits of the single-precision number, where this is a number
    /// that has one.
    pub fn single(&self) -> (bits: Option<u32>)
        ensures
            bits == self@.as_single(),
    {
        match self {
            SettingValue::Number { whole, single } => *single,
            _ => None,
        }
    }
}

impl SettingsPatch {
    /// The update that says nothing.
    pub fn empty() -> (p: Self)
        ensures
            p@ == PatchSpec::empty(),
    {
        SettingsPatch {
            theme: ThemePatch { mode: None, primary_color: None, secondary_color: None },
            editor: EditorPatch {
                font_size: None,
                font_family: None,
                tab_size: None,
                word_wrap: None,
                auto_save: None,
                auto_save_delay: None,
            },
            animation: AnimationPatch {
                typing_speed: None,
                typing_variation: None,
                cursor_blink_rate: None,
                smooth_scrolling: None,
                enable_animations: None,
            },
        }
    }

    /// Takes note that the document holds `value` under `field` of
    /// `section`. What no setting is named by, or what is of another kind
    /// than the setting named, is passed over.
    pub fn record(&mut self, section: &str, field: &str, value: &SettingValue)
        ensures
            final(self)@ == old(self)@.recorded(section@, field@, value@),
    {
        let text = value.text();
        let whole = value.whole();
        let switch = value.switch();
        let single = value.single();
        fill_text(&mut self.theme.mode, names(section, field, "theme", "mode"), &text);
        fill_text(
            &mut self.theme.primary_color,
            names(section, field, "theme", "primary_color"),
            &text,
        );
        fill_text(
            &mut self.theme.secondary_color,
            names(section, field, "theme", "secondary_color"),
            &text,
        );
        fill(&mut self.editor.font_size, names(section, field, "editor", "font_size"), whole);
        fill_text(
            &mut self.editor.font_family,
            names(section, field, "editor", "font_family"),
            &text,
        );
        fill(&mut self.editor.tab_size, names(section, field, "editor", "tab_size"), whole);
        fill(&mut self.editor.word_wrap, names(section, field, "editor", "word_wrap"), switch);
        fill(&mut self.editor.auto_save, names(section, field, "editor", "auto_save"), switch);
        fill(
            &mut self.editor.auto_save_delay,
            names(section, field, "editor", "auto_save_delay"),
            whole,
        );
        fill(
            &mut self.animation.typing_speed,
            names(section, field, "animation", "typing_speed"),
            single,
        );
        fill(
            &mut self.animation.typing_variation,
            names(section, field, "animation", "typing_variation"),
            single,
        );
        fill(
            &mut self.animation.cursor_blink_rate,
            names(section, field, "animation", "cursor_blink_rate"),
            whole,
        );
        fill(
            &mut self.animation.smooth_scrolling,
            names(section, field, "animation", "smooth_scrolling"),
            switch,
        );
        fill(
            &mut self.animation.enable_animations,
            names(section, field, "animation", "enable_animations"),
            switch,
        );
    }
}

} // verus!
