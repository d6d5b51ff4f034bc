//! User settings: their defaults, how one source of settings overrides
//! another, and the decision taken about a configuration file.
//!
//! The floating-point settings are carried as their IEEE-754 bit patterns:
//! the logic here only moves them around and never computes with them.
//! Paths are carried as `PathBuf`s, whatever bytes they hold.
use std::path::PathBuf;
use vstd::prelude::*;

verus! {

#[verifier::external_type_specification]
#[verifier::external_body]
pub struct ExPathBuf(std::path::PathBuf);

/// `<PathBuf as Clone>::clone`: the copy holds the same path.
pub assume_specification[ <std::path::PathBuf as Clone>::clone ](path: &std::path::PathBuf) -> (copy: std::path::PathBuf)
    ensures
        copy == *path,
;

/// Frame rate used when no source sets one.
pub const DEFAULT_FRAME_RATE: u32 = 60;

/// Bit pattern of the `f32` value 1.0, the default beat sensitivity.
pub const DEFAULT_BEAT_SENSITIVITY_BITS: u32 = 0x3F80_0000;

/// Bit pattern of the `f64` value 10.0, the default preset duration in seconds.
pub const DEFAULT_PRESET_DURATION_BITS: u64 = 0x4024_0000_0000_0000;

/// Configuration options, from the command line, the environment or a
/// configuration file. A `None` field is one that the source does not set.
pub struct Settings {
    /// Path to a configuration file.
    pub config_path: Option<PathBuf>,
    /// Frame rate to render at.
    pub frame_rate: Option<u32>,
    /// Path to the preset directory.
    pub preset_path: Option<PathBuf>,
    /// Path to the texture directory.
    pub texture_path: Option<PathBuf>,
    /// Sensitivity of the beat detection (bits of an `f32`).
    pub beat_sensitivity_bits: Option<u32>,
    /// Seconds each preset plays (bits of an `f64`).
    pub preset_duration_bits: Option<u64>,
}

/// `top` where it holds a value, `base` elsewhere.
pub open spec fn overlay_field<T>(base: Option<T>, top: Option<T>) -> Option<T> {
    if top is Some {
        top
    } else {
        base
    }
}

/// Every field of `top` that holds a value replaces that of `base`.
pub open spec fn overlay(base: Settings, top: Settings) -> Settings {
    Settings {
        config_path: overlay_field(base.config_path, top.config_path),
        frame_rate: overlay_field(base.frame_rate, top.frame_rate),
        preset_path: overlay_field(base.preset_path, top.preset_path),
        texture_path: overlay_field(base.texture_path, top.texture_path),
        beat_sensitivity_bits: overlay_field(base.beat_sensitivity_bits, top.beat_sensitivity_bits),
        preset_duration_bits: overlay_field(base.preset_duration_bits, top.preset_duration_bits),
    }
}

/// Settings that set nothing.
pub open spec fn unset() -> Settings {
    Settings {
        config_path: None,
        frame_rate: None,
        preset_path: None,
        texture_path: None,
        beat_sensitivity_bits: None,
        preset_duration_bits: None,
    }
}

/// The settings used when no configuration file is read.
pub open spec fn default_settings() -> Settings {
    Settings {
        config_path: None,
        frame_rate: Some(DEFAULT_FRAME_RATE),
        preset_path: None,
        texture_path: None,
        beat_sensitivity_bits: Some(DEFAULT_BEAT_SENSITIVITY_BITS),
        preset_duration_bits: Some(DEFAULT_PRESET_DURATION_BITS),
    }
}

/// `s` with the global defaults filled into the rate, sensitivity and
/// duration fields that are still unset.
pub open spec fn with_global_defaults(s: Settings) -> Settings {
    Settings {
        frame_rate: overlay_field(Some(DEFAULT_FRAME_RATE), s.frame_rate),
        beat_sensitivity_bits: overlay_field(Some(DEFAULT_BEAT_SENSITIVITY_BITS), s.beat_sensitivity_bits),
        preset_duration_bits: overlay_field(Some(DEFAULT_PRESET_DURATION_BITS), s.preset_duration_bits),
        ..s
    }
}

/// What the settings are once the command line and environment (`cli`) have
/// overridden the file's settings and the global defaults have filled the gaps.
pub open spec fn resolved(file: Settings, cli: Settings) -> Settings {
    with_global_defaults(overlay(file, cli))
}

impl Default for Settings {
    fn default() -> (s: Settings)
        ensures
            s == default_settings(),
    {
        Settings {
            config_path: None,
            frame_rate: Some(DEFAULT_FRAME_RATE),
            preset_path: None,
            texture_path: None,
            beat_sensitivity_bits: Some(DEFAULT_BEAT_SENSITIVITY_BITS),
            preset_duration_bits: Some(DEFAULT_PRESET_DURATION_BITS),
        }
    }
}

fn overlay_path(base: &mut Option<PathBuf>, top: &Option<PathBuf>)
    ensures
        *final(base) == overlay_field(*old(base), *top),
{
    if let Some(value) = top {
        *base = Some(value.clone());
    }
}

impl Settings {
    /// Overrides `self` with the values of `other`, where `other` has them.
    pub fn apply(&mut self, other: &Settings)
        ensures
            *final(self) == overlay(*old(self), *other),
    {
        overlay_path(&mut self.config_path, &other.config_path);
        if let Some(frame_rate) = other.frame_rate {
            self.frame_rate = Some(frame_rate);
        }
        overlay_path(&mut self.preset_path, &other.preset_path);
        overlay_path(&mut self.texture_path, &other.texture_path);
        if let Some(beat_sensitivity) = other.beat_sensitivity_bits {
            self.beat_sensitivity_bits = Some(beat_sensitivity);
        }
        if let Some(preset_duration) = other.preset_duration_bits {
            self.preset_duration_bits = Some(preset_duration);
        }
    }

    /// Fills the global defaults into the frame rate, beat sensitivity and
    /// preset duration where they are still unset.
    pub fn fill_global_defaults(&mut self)
        ensures
            *final(self) == with_global_defaults(*old(self)),
    {
        if self.frame_rate.is_none() {
            self.frame_rate = Some(DEFAULT_FRAME_RATE);
        }
        if self.beat_sensitivity_bits.is_none() {
            self.beat_sensitivity_bits = Some(DEFAULT_BEAT_SENSITIVITY_BITS);
        }
        if self.preset_duration_bits.is_none() {
            self.preset_duration_bits = Some(DEFAULT_PRESET_DURATION_BITS);
        }
    }
}

/// Combines the outcome of reading the configuration file with the settings
/// from the command line and environment: an error from the file is handed
/// on; otherwise the command line overrides the file and the global defaults
/// fill what neither sets.
pub fn resolve_settings(file: Result<Settings, String>, cli: &Settings) -> (r: Result<Settings, String>)
    ensures
        match file {
            Err(e) => r == Err::<Settings, String>(e),
            Ok(f) => r == Ok::<Settings, String>(resolved(f, *cli)),
        },
{
    match file {
        Err(e) => Err(e),
        Ok(f) => {
            let mut settings = f;
            settings.apply(cli);
            settings.fill_global_defaults();
            Ok(settings)
        },
    }
}

/// The extension of `path`, as `std::path::Path::extension` cuts it and
/// `OsStr::to_str` reads it (`None` when there is none, or when it is not
/// valid UTF-8).
pub uninterp spec fn path_extension(path: PathBuf) -> Option<Seq<char>>;

/// The `Debug` rendering of `std::path::Path::extension` of `path`.
pub uninterp spec fn path_extension_debug(path: PathBuf) -> Seq<char>;

/// Calls `std::path::Path::extension` on `path` and reads the extension as
/// text through `OsStr::to_str`. The contract claims only that the result is
/// a function of the path (named `path_extension`); how the extension is cut
/// from the path is not stated.
#[verifier::external_body]
fn extension_text(path: &PathBuf) -> (ext: Option<String>)
    ensures
        extension_view(ext) == path_extension(*path),
{
    let ext = path.extension()?;
    Some(ext.to_str()?.to_owned())
}

/// Formats `std::path::Path::extension` of `path` with `Debug`. The contract
/// claims only that the text is a function of the path (named
/// `path_extension_debug`); its spelling is not stated.
#[verifier::external_body]
fn extension_debug_text(path: &PathBuf) -> (text: String)
    ensures
        text@ == path_extension_debug(*path),
{
    format!("{:?}", path.extension())
}

/// Whether a configuration file with this extension is read. The accepted
/// spellings are "toml", "json" and "yaml)", closing parenthesis included,
/// so a ".yaml" file is refused.
pub open spec fn extension_accepted(ext: Option<Seq<char>>) -> bool {
    ext == Some("toml"@) || ext == Some("json"@) || ext == Some("yaml)"@)
}

/// The extension's text, as a sequence of characters.
pub open spec fn extension_view(ext: Option<String>) -> Option<Seq<char>> {
    match ext {
        Some(e) => Some(e@),
        None => None,
    }
}

/// What to do about the configuration file.
pub enum SettingsFileStep {
    /// No file is read: the default settings stand for it.
    UseDefaults,
    /// The file is refused with this message.
    Reject(String),
    /// The file at this path is to be read.
    Load(PathBuf),
}

/// `step` is the decision about an existing configuration file at `path`
/// whose extension reads `extension` and renders as `extension_debug`: the
/// file is read when the extension is accepted, and refused otherwise with
/// the message `invalid config file extension: <extension_debug>`.
pub open spec fn decides(
    step: SettingsFileStep,
    path: PathBuf,
    extension: Option<String>,
    extension_debug: String,
) -> bool {
    if extension_accepted(extension_view(extension)) {
        step == SettingsFileStep::Load(path)
    } else {
        step matches SettingsFileStep::Reject(msg) && msg@ == "invalid config file extension: "@
            + extension_debug@
    }
}

fn is_accepted_extension(ext: &Option<String>) -> (accepted: bool)
    ensures
        accepted == extension_accepted(extension_view(*ext)),
{
    match ext {
        Some(e) => {
            let toml = "toml".to_owned();
            let json = "json".to_owned();
            let yaml = "yaml)".to_owned();
            *e == toml || *e == json || *e == yaml
        },
        None => false,
    }
}

/// Decides about an existing configuration file at `path`, given its
/// extension as text and the extension's `Debug` rendering.
pub fn settings_file_decision(path: PathBuf, extension: Option<String>, extension_debug: String) -> (step: SettingsFileStep)
    ensures
        decides(step, path, extension, extension_debug),
{
    if is_accepted_extension(&extension) {
        SettingsFileStep::Load(path)
    } else {
        let mut msg = "invalid config file extension: ".to_owned();
        msg.append(extension_debug.as_str());
        SettingsFileStep::Reject(msg)
    }
}

/// Decides about the configuration file at `path`, given whether a file
/// exists there: with no path, or nothing at the path, the defaults stand;
/// a file whose extension is accepted is read; any other is refused with
/// the message `invalid config file extension: <Debug of the extension>`.
pub fn settings_file_step(path: Option<PathBuf>, path_exists: bool) -> (step: SettingsFileStep)
    ensures
        match path {
            None => step is UseDefaults,
            Some(p) => if !path_exists {
                step is UseDefaults
            } else if extension_accepted(path_extension(p)) {
                step == SettingsFileStep::Load(p)
            } else {
                step matches SettingsFileStep::Reject(msg) && msg@ == "invalid config file extension: "@
                    + path_extension_debug(p)
            },
        },
{
    match path {
        None => SettingsFileStep::UseDefaults,
        Some(p) => {
            if !path_exists {
                return SettingsFileStep::UseDefaults;
            }
            let extension = extension_text(&p);
            let extension_debug = extension_debug_text(&p);
            settings_file_decision(p, extension, extension_debug)
        },
    }
}

/// Overriding works field by field: a field that `top` sets takes `top`'s
/// value, and a field that `top` leaves unset keeps `base`'s value, whatever
/// the other fields hold.
pub proof fn lemma_overlay_per_field(base: Settings, top: Settings)
    ensures
        top.config_path is Some ==> overlay(base, top).config_path == top.config_path,
        top.config_path is None ==> overlay(base, top).config_path == base.config_path,
        top.frame_rate is Some ==> overlay(base, top).frame_rate == top.frame_rate,
        top.frame_rate is None ==> overlay(base, top).frame_rate == base.frame_rate,
        top.preset_path is Some ==> overlay(base, top).preset_path == top.preset_path,
        top.preset_path is None ==> overlay(base, top).preset_path == base.preset_path,
        top.texture_path is Some ==> overlay(base, top).texture_path == top.texture_path,
        top.texture_path is None ==> overlay(base, top).texture_path == base.texture_path,
        top.beat_sensitivity_bits is Some ==> overlay(base, top).beat_sensitivity_bits == top.beat_sensitivity_bits,
        top.beat_sensitivity_bits is None ==> overlay(base, top).beat_sensitivity_bits == base.beat_sensitivity_bits,
        top.preset_duration_bits is Some ==> overlay(base, top).preset_duration_bits == top.preset_duration_bits,
        top.preset_duration_bits is None ==> overlay(base, top).preset_duration_bits == base.preset_duration_bits,
{
}

/// Where each resolved value comes from: the command line where it sets
/// the field; otherwise the file where it sets it; otherwise 60 frames per
/// second, a beat sensitivity of 1.0 and a preset duration of 10 seconds for
/// those three fields, and nothing for the paths.
pub proof fn lemma_resolved_sources(file: Settings, cli: Settings)
    ensures
        cli.config_path is Some ==> resolved(file, cli).config_path == cli.config_path,
        cli.config_path is None && file.config_path is Some ==> resolved(file, cli).config_path == file.config_path,
        cli.frame_rate is Some ==> resolved(file, cli).frame_rate == cli.frame_rate,
        cli.frame_rate is None && file.frame_rate is Some ==> resolved(file, cli).frame_rate == file.frame_rate,
        cli.preset_path is Some ==> resolved(file, cli).preset_path == cli.preset_path,
        cli.preset_path is None && file.preset_path is Some ==> resolved(file, cli).preset_path == file.preset_path,
        cli.texture_path is Some ==> resolved(file, cli).texture_path == cli.texture_path,
        cli.texture_path is None && file.texture_path is Some ==> resolved(file, cli).texture_path == file.texture_path,
        cli.beat_sensitivity_bits is Some ==> resolved(file, cli).beat_sensitivity_bits == cli.beat_sensitivity_bits,
        cli.beat_sensitivity_bits is None && file.beat_sensitivity_bits is Some ==> resolved(file, cli).beat_sensitivity_bits == file.beat_sensitivity_bits,
        cli.preset_duration_bits is Some ==> resolved(file, cli).preset_duration_bits == cli.preset_duration_bits,
        cli.preset_duration_bits is None && file.preset_duration_bits is Some ==> resolved(file, cli).preset_duration_bits == file.preset_duration_bits,
        cli.frame_rate is None && file.frame_rate is None ==> resolved(file, cli).frame_rate == Some(60u32),
        cli.beat_sensitivity_bits is None && file.beat_sensitivity_bits is None ==> resolved(file, cli).beat_sensitivity_bits == Some(0x3F80_0000u32),
        cli.preset_duration_bits is None && file.preset_duration_bits is None ==> resolved(file, cli).preset_duration_bits == Some(0x4024_0000_0000_0000u64),
        cli.config_path is None && file.config_path is None ==> resolved(file, cli).config_path is None,
        cli.preset_path is None && file.preset_path is None ==> resolved(file, cli).preset_path is None,
        cli.texture_path is None && file.texture_path is None ==> resolved(file, cli).texture_path is None,
{
}

/// Applying settings that set nothing changes nothing.
pub proof fn lemma_overlay_unset(s: Settings)
    ensures
        overlay(s, unset()) == s,
{
}

/// Applying the same settings twice has the effect of applying them once.
pub proof fn lemma_overlay_idempotent(s: Settings, top: Settings)
    ensures
        overlay(overlay(s, top), top) == overlay(s, top),
{
}

/// Applying `a` and then `b` is applying the overlay of `b` on `a`: the
/// later source wins field by field.
pub proof fn lemma_overlay_compose(s: Settings, a: Settings, b: Settings)
    ensures
        overlay(overlay(s, a), b) == overlay(s, overlay(a, b)),
{
}

/// Resolved settings always carry a frame rate, a beat sensitivity and a
/// preset duration, and every value that the command line sets is the one
/// used.
pub proof fn lemma_resolved_complete(file: Settings, cli: Settings)
    ensures
        resolved(file, cli).frame_rate is Some,
        resolved(file, cli).beat_sensitivity_bits is Some,
        resolved(file, cli).preset_duration_bits is Some,
        cli.frame_rate is Some ==> resolved(file, cli).frame_rate == cli.frame_rate,
        cli.config_path is Some ==> resolved(file, cli).config_path == cli.config_path,
        cli.preset_path is Some ==> resolved(file, cli).preset_path == cli.preset_path,
        cli.texture_path is Some ==> resolved(file, cli).texture_path == cli.texture_path,
        cli.beat_sensitivity_bits is Some ==> resolved(file, cli).beat_sensitivity_bits
            == cli.beat_sensitivity_bits,
        cli.preset_duration_bits is Some ==> resolved(file, cli).preset_duration_bits
            == cli.preset_duration_bits,
{
}

} // verus!
