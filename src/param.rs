//! Encoder parameters: the fields the library's own logic reads, and the
//! named settings (preset, tuning, profile, `name=value` options) that are
//! handed to the engine when a session is opened.
use crate::colorspace::X264_CSP_I420;
use vstd::prelude::*;
use vstd::string::StringSliceAdditionalSpecFns;

verus! {

/// Error text for a malformed argument.
pub const INVALID_ARGUMENT: &'static str = "Invalid Argument";

/// Error text for a status code the engine does not document.
pub const UNEXPECTED: &'static str = "Unexpected";

/// Whether a string holds a NUL byte, so cannot cross the engine's boundary.
pub open spec fn has_nul(s: Seq<u8>) -> bool {
    exists|i: int| 0 <= i < s.len() && s[i] == 0u8
}

pub open spec fn opt_has_nul(s: Option<&str>) -> bool {
    match s {
        Some(t) => has_nul(t.spec_bytes()),
        None => false,
    }
}

pub open spec fn opt_view(s: Option<&str>) -> Option<Seq<char>> {
    match s {
        Some(t) => Some(t@),
        None => None,
    }
}

/// Status the engine's configuration calls return for an unknown name.
pub const X264_PARAM_BAD_NAME: i32 = -1;

/// Status the engine's option parser returns for a malformed value.
pub const X264_PARAM_BAD_VALUE: i32 = -2;

/// What a status of the engine's preset and profile calls means:
/// `0` is success, an unknown name an invalid argument, anything else
/// unexpected.
pub open spec fn status_meaning(code: i32) -> Result<(), Seq<char>> {
    if code == 0 {
        Ok(())
    } else if code == X264_PARAM_BAD_NAME {
        Err(INVALID_ARGUMENT@)
    } else {
        Err(UNEXPECTED@)
    }
}

/// What a status of the engine's option parser means: `0` is success, an
/// unknown name or a malformed value an invalid argument, anything else
/// unexpected.
pub open spec fn parse_status_meaning(code: i32) -> Result<(), Seq<char>> {
    if code == 0 {
        Ok(())
    } else if code == X264_PARAM_BAD_NAME || code == X264_PARAM_BAD_VALUE {
        Err(INVALID_ARGUMENT@)
    } else {
        Err(UNEXPECTED@)
    }
}

/// The outcome of a configuration call: an argument error when a string
/// holds a NUL byte, else what the engine's status means.
pub open spec fn outcome(nul: bool, meaning: Result<(), Seq<char>>) -> Result<(), Seq<char>> {
    if nul {
        Err(INVALID_ARGUMENT@)
    } else {
        meaning
    }
}

/// `r` fails exactly as `o` says, with the same message.
pub open spec fn agrees<T>(r: Result<T, &'static str>, o: Result<(), Seq<char>>) -> bool {
    match (r, o) {
        (Ok(_), Ok(())) => true,
        (Err(e), Err(m)) => e@ == m,
        _ => false,
    }
}

fn status_error(code: i32, parse: bool) -> (r: &'static str)
    requires
        code != 0,
    ensures
        parse ==> Err::<(), Seq<char>>(r@) == parse_status_meaning(code),
        !parse ==> Err::<(), Seq<char>>(r@) == status_meaning(code),
{
    proof {
        reveal_strlit("Invalid Argument");
        reveal_strlit("Unexpected");
    }
    if code == X264_PARAM_BAD_NAME || (parse && code == X264_PARAM_BAD_VALUE) {
        INVALID_ARGUMENT
    } else {
        UNEXPECTED
    }
}

/// Scans a string for a NUL byte.
pub fn contains_nul(s: &str) -> (r: bool)
    ensures
        r == has_nul(s.spec_bytes()),
{
    let b = s.as_bytes();
    let mut i: usize = 0;
    while i < b.len()
        invariant
            b@ == s.spec_bytes(),
            i <= b@.len(),
            forall|j: int| 0 <= j < i ==> b@[j] != 0u8,
        decreases b@.len() - i,
    {
        if b[i] == 0 {
            return true;
        }
        i = i + 1;
    }
    false
}

fn opt_contains_nul(s: Option<&str>) -> (r: bool)
    ensures
        r == opt_has_nul(s),
{
    match s {
        Some(t) => contains_nul(t),
        None => false,
    }
}

fn opt_to_string(s: Option<&str>) -> (r: Option<String>)
    ensures
        match r {
            Some(t) => opt_view(s) == Some(t@),
            None => opt_view(s).is_none(),
        },
{
    match s {
        Some(t) => Some(t.to_owned()),
        None => None,
    }
}

/// One setting made on a parameter block after its creation.
#[derive(Debug)]
pub enum Setting {
    Csp(usize),
    /// Height, then width.
    Dimension(usize, usize),
    FullRange(usize),
    ColorMatrix(usize),
    Profile(String),
    /// A `name=value` option.
    Parsed(String, String),
}

/// Mathematical model of a setting.
pub ghost enum SettingView {
    Csp(usize),
    Dimension(usize, usize),
    FullRange(usize),
    ColorMatrix(usize),
    Profile(Seq<char>),
    Parsed(Seq<char>, Seq<char>),
}

pub open spec fn setting_view(s: Setting) -> SettingView {
    match s {
        Setting::Csp(v) => SettingView::Csp(v),
        Setting::Dimension(h, w) => SettingView::Dimension(h, w),
        Setting::FullRange(v) => SettingView::FullRange(v),
        Setting::ColorMatrix(v) => SettingView::ColorMatrix(v),
        Setting::Profile(p) => SettingView::Profile(p@),
        Setting::Parsed(n, v) => SettingView::Parsed(n@, v@),
    }
}

/// Mathematical model of a parameter block.
pub ghost struct ParamView {
    pub csp: usize,
    pub width: usize,
    pub height: usize,
    /// `None` leaves the engine's automatic choice.
    pub fullrange: Option<usize>,
    /// `None` leaves the matrix undefined.
    pub colmatrix: Option<usize>,
    pub preset: Option<Seq<char>>,
    pub tune: Option<Seq<char>>,
    /// Every setting made since creation, in the order it was made.
    pub settings: Seq<SettingView>,
}

/// An encoder parameter block.
#[derive(Debug)]
pub struct Param {
    csp: usize,
    width: usize,
    height: usize,
    fullrange: Option<usize>,
    colmatrix: Option<usize>,
    preset: Option<String>,
    tune: Option<String>,
    settings: Vec<Setting>,
}

pub open spec fn option_string_view(s: Option<String>) -> Option<Seq<char>> {
    match s {
        Some(t) => Some(t@),
        None => None,
    }
}

impl View for Param {
    type V = ParamView;

    closed spec fn view(&self) -> ParamView {
        ParamView {
            csp: self.csp,
            width: self.width,
            height: self.height,
            fullrange: self.fullrange,
            colmatrix: self.colmatrix,
            preset: option_string_view(self.preset),
            tune: option_string_view(self.tune),
            settings: self.settings@.map_values(|s: Setting| setting_view(s)),
        }
    }
}

/// The stock parameters: 8-bit 4:2:0, no size yet, nothing named or set.
pub open spec fn default_view() -> ParamView {
    ParamView {
        csp: X264_CSP_I420,
        width: 0,
        height: 0,
        fullrange: None,
        colmatrix: None,
        preset: None,
        tune: None,
        settings: Seq::empty(),
    }
}

impl Default for Param {
    fn default() -> (r: Param)
        ensures
            r@ == default_view(),
    {
        Param::new()
    }
}

impl Param {
    /// Stock parameters.
    pub fn new() -> (r: Param)
        ensures
            r@ == default_view(),
    {
        let r = Param {
            csp: X264_CSP_I420,
            width: 0,
            height: 0,
            fullrange: None,
            colmatrix: None,
            preset: None,
            tune: None,
            settings: Vec::new(),
        };
        assert(r@.settings =~= Seq::empty());
        r
    }

    /// Appends a setting to the log.
    fn record(&mut self, s: Setting)
        ensures
            final(self)@ == (ParamView {
                settings: old(self)@.settings.push(setting_view(s)),
                ..old(self)@
            }),
    {
        self.settings.push(s);
        assert(final(self)@.settings =~= old(self)@.settings.push(setting_view(s)));
    }

    /// Stock parameters refined by a preset and a tuning, either optional,
    /// given the engine's `status` for that selection. Fails with an argument
    /// error when a name holds a NUL byte or the engine does not know it.
    pub fn default_preset(preset: Option<&str>, tune: Option<&str>, status: i32) -> (r: Result<
        Param,
        &'static str,
    >)
        ensures
            agrees(r, outcome(opt_has_nul(preset) || opt_has_nul(tune), status_meaning(status))),
            r.is_ok() ==> r.unwrap()@ == (ParamView {
                preset: opt_view(preset),
                tune: opt_view(tune),
                ..default_view()
            }),
    {
        proof {
            reveal_strlit("Invalid Argument");
        }
        if opt_contains_nul(preset) || opt_contains_nul(tune) {
            return Err(INVALID_ARGUMENT);
        }
        if status != 0 {
            return Err(status_error(status, false));
        }
        let mut r = Param::new();
        r.preset = opt_to_string(preset);
        r.tune = opt_to_string(tune);
        Ok(r)
    }

    /// Restricts the parameters to a named profile, given the engine's
    /// `status` for it. Fails with an argument error when the name holds a NUL
    /// byte or the engine rejects it.
    pub fn apply_profile(self, profile: &str, status: i32) -> (r: Result<Param, &'static str>)
        ensures
            agrees(r, outcome(has_nul(profile.spec_bytes()), status_meaning(status))),
            r.is_ok() ==> r.unwrap()@ == (ParamView {
                settings: self@.settings.push(SettingView::Profile(profile@)),
                ..self@
            }),
    {
        proof {
            reveal_strlit("Invalid Argument");
        }
        if contains_nul(profile) {
            return Err(INVALID_ARGUMENT);
        }
        if status != 0 {
            return Err(status_error(status, false));
        }
        let mut r = self;
        r.record(Setting::Profile(profile.to_owned()));
        Ok(r)
    }

    /// Sets an option by name, as the engine's `name=value` settings do, given
    /// the engine's `status` for it. Fails with an argument error when the name
    /// or the value holds a NUL byte, the name is unknown or the value malformed.
    pub fn param_parse(self, name: &str, value: &str, status: i32) -> (r: Result<
        Param,
        &'static str,
    >)
        ensures
            agrees(
                r,
                outcome(
                    has_nul(name.spec_bytes()) || has_nul(value.spec_bytes()),
                    parse_status_meaning(status),
                ),
            ),
            r.is_ok() ==> r.unwrap()@ == (ParamView {
                settings: self@.settings.push(SettingView::Parsed(name@, value@)),
                ..self@
            }),
    {
        proof {
            reveal_strlit("Invalid Argument");
        }
        if contains_nul(name) || contains_nul(value) {
            return Err(INVALID_ARGUMENT);
        }
        if status != 0 {
            return Err(status_error(status, true));
        }
        let mut r = self;
        r.record(Setting::Parsed(name.to_owned(), value.to_owned()));
        Ok(r)
    }

    /// The colorspace code.
    pub fn csp(&self) -> (r: usize)
        ensures
            r == self@.csp,
    {
        self.csp
    }

    /// The picture width.
    pub fn width(&self) -> (r: usize)
        ensures
            r == self@.width,
    {
        self.width
    }

    /// The picture height.
    pub fn height(&self) -> (r: usize)
        ensures
            r == self@.height,
    {
        self.height
    }

    /// The full-range flag, if set.
    pub fn fullrange(&self) -> (r: Option<usize>)
        ensures
            r == self@.fullrange,
    {
        self.fullrange
    }

    /// The color matrix, if set.
    pub fn colormatrix(&self) -> (r: Option<usize>)
        ensures
            r == self@.colmatrix,
    {
        self.colmatrix
    }

    /// The preset name, if any.
    pub fn preset(&self) -> (r: Option<&str>)
        ensures
            opt_view(r) == self@.preset,
    {
        match &self.preset {
            Some(s) => Some(s.as_str()),
            None => None,
        }
    }

    /// The tuning name, if any.
    pub fn tune(&self) -> (r: Option<&str>)
        ensures
            opt_view(r) == self@.tune,
    {
        match &self.tune {
            Some(s) => Some(s.as_str()),
            None => None,
        }
    }

    /// Every setting made since creation, in order.
    pub fn settings(&self) -> (r: &Vec<Setting>)
        ensures
            r@.map_values(|s: Setting| setting_view(s)) == self@.settings,
    {
        &self.settings
    }

    /// Sets the colorspace code.
    pub fn set_csp(self, value: usize) -> (r: Param)
        ensures
            r@ == (ParamView {
                csp: value,
                settings: self@.settings.push(SettingView::Csp(value)),
                ..self@
            }),
    {
        let mut r = self;
        r.csp = value;
        r.record(Setting::Csp(value));
        r
    }

    /// Sets the full-range flag of the video usability information.
    pub fn set_fullrange(self, value: usize) -> (r: Param)
        ensures
            r@ == (ParamView {
                fullrange: Some(value),
                settings: self@.settings.push(SettingView::FullRange(value)),
                ..self@
            }),
    {
        let mut r = self;
        r.fullrange = Some(value);
        r.record(Setting::FullRange(value));
        r
    }

    /// Sets the color matrix of the video usability information.
    pub fn set_colormatrix(self, value: usize) -> (r: Param)
        ensures
            r@ == (ParamView {
                colmatrix: Some(value),
                settings: self@.settings.push(SettingView::ColorMatrix(value)),
                ..self@
            }),
    {
        let mut r = self;
        r.colmatrix = Some(value);
        r.record(Setting::ColorMatrix(value));
        r
    }

    /// Sets the picture size; the height comes first.
    pub fn set_dimension(self, height: usize, width: usize) -> (r: Param)
        ensures
            r@ == (ParamView {
                height,
                width,
                settings: self@.settings.push(SettingView::Dimension(height, width)),
                ..self@
            }),
    {
        let mut r = self;
        r.height = height;
        r.width = width;
        r.record(Setting::Dimension(height, width));
        r
    }
}

} // verus!
