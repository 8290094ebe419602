//! Window identity labels of the desktop shell.
//!
//! Every window the shell opens is identified by a stable string label.
//! Singleton windows carry a fixed label; editor windows append a numeric
//! id and the per-display overlays append a display id. Formatting and
//! parsing are exact inverses, so a window found by label is the window
//! that was opened under it.

use vstd::prelude::*;

use crate::decimal::{all_dec_digits, dec_str, dec_val, lemma_dec_str_val, parse_u32, u64_to_string};

verus! {

/// The window kinds the desktop shell can open. Display ids are carried
/// as the plain strings they appear as in labels.
#[derive(Debug, Clone, PartialEq, Eq)]
pub enum CapWindowDef {
    Setup,
    Main,
    Settings,
    Editor { id: u32 },
    RecordingsOverlay,
    WindowCaptureOccluder { screen_id: String },
    TargetSelectOverlay { display_id: String },
    CaptureArea,
    Camera,
    RecordingControls,
    Upgrade,
    ModeSelect,
    Debug,
    ScreenshotEditor { id: u32 },
}

/// `p` is an initial run of `s`.
pub open spec fn has_prefix(s: Seq<char>, p: Seq<char>) -> bool {
    p.len() <= s.len() && s.take(p.len() as int) == p
}

/// The label a window definition is known by. `RecordingControls` keeps
/// its legacy label.
pub open spec fn label_of(def: CapWindowDef) -> Seq<char> {
    match def {
        CapWindowDef::Setup => "setup"@,
        CapWindowDef::Main => "main"@,
        CapWindowDef::Settings => "settings"@,
        CapWindowDef::Camera => "camera"@,
        CapWindowDef::CaptureArea => "capture-area"@,
        CapWindowDef::RecordingControls => "in-progress-recording"@,
        CapWindowDef::RecordingsOverlay => "recordings-overlay"@,
        CapWindowDef::Upgrade => "upgrade"@,
        CapWindowDef::ModeSelect => "mode-select"@,
        CapWindowDef::Debug => "debug"@,
        CapWindowDef::Editor { id } => "editor-"@ + dec_str(id as nat),
        CapWindowDef::ScreenshotEditor { id } => "screenshot-editor-"@ + dec_str(id as nat),
        CapWindowDef::WindowCaptureOccluder { screen_id } => "window-capture-occluder-"@
            + screen_id@,
        CapWindowDef::TargetSelectOverlay { display_id } => "target-select-overlay-"@
            + display_id@,
    }
}

/// The strings that name some window: a fixed label, an editor label with
/// a well-formed 32-bit id, or an overlay label with any display id.
pub open spec fn is_window_label(s: Seq<char>) -> bool {
    ||| s == "setup"@
    ||| s == "main"@
    ||| s == "settings"@
    ||| s == "camera"@
    ||| s == "capture-area"@
    ||| s == "in-progress-recording"@
    ||| s == "recordings-overlay"@
    ||| s == "upgrade"@
    ||| s == "mode-select"@
    ||| s == "debug"@
    ||| (has_prefix(s, "editor-"@) && all_dec_digits(s.skip("editor-"@.len() as int)) && dec_val(
        s.skip("editor-"@.len() as int),
    ) <= u32::MAX)
    ||| (has_prefix(s, "screenshot-editor-"@) && all_dec_digits(
        s.skip("screenshot-editor-"@.len() as int),
    ) && dec_val(s.skip("screenshot-editor-"@.len() as int)) <= u32::MAX)
    ||| has_prefix(s, "window-capture-occluder-"@)
    ||| has_prefix(s, "target-select-overlay-"@)
}

/// The definition a label denotes, matched in the same order the parser
/// tests: fixed labels first, then the parameterized prefixes.
pub open spec fn parsed_window(s: Seq<char>, d: CapWindowDef) -> bool {
    if s == "setup"@ {
        d == CapWindowDef::Setup
    } else if s == "main"@ {
        d == CapWindowDef::Main
    } else if s == "settings"@ {
        d == CapWindowDef::Settings
    } else if s == "camera"@ {
        d == CapWindowDef::Camera
    } else if s == "capture-area"@ {
        d == CapWindowDef::CaptureArea
    } else if s == "in-progress-recording"@ {
        d == CapWindowDef::RecordingControls
    } else if s == "recordings-overlay"@ {
        d == CapWindowDef::RecordingsOverlay
    } else if s == "upgrade"@ {
        d == CapWindowDef::Upgrade
    } else if s == "mode-select"@ {
        d == CapWindowDef::ModeSelect
    } else if s == "debug"@ {
        d == CapWindowDef::Debug
    } else if has_prefix(s, "editor-"@) {
        let rest = s.skip("editor-"@.len() as int);
        all_dec_digits(rest) && dec_val(rest) <= u32::MAX && d == (CapWindowDef::Editor {
            id: dec_val(rest) as u32,
        })
    } else if has_prefix(s, "screenshot-editor-"@) {
        let rest = s.skip("screenshot-editor-"@.len() as int);
        all_dec_digits(rest) && dec_val(rest) <= u32::MAX && d == (CapWindowDef::ScreenshotEditor {
            id: dec_val(rest) as u32,
        })
    } else if has_prefix(s, "window-capture-occluder-"@) {
        d matches CapWindowDef::WindowCaptureOccluder { screen_id } && screen_id@ == s.skip(
            "window-capture-occluder-"@.len() as int,
        )
    } else if has_prefix(s, "target-select-overlay-"@) {
        d matches CapWindowDef::TargetSelectOverlay { display_id } && display_id@ == s.skip(
            "target-select-overlay-"@.len() as int,
        )
    } else {
        false
    }
}

/// The exact outcome of parsing `s` as a window label: the label's
/// definition on success, the unknown-label message on everything else.
pub open spec fn parse_label_post(s: Seq<char>, r: Result<CapWindowDef, String>) -> bool {
    &&& (r matches Ok(d) ==> parsed_window(s, d))
    &&& (r is Err <==> !is_window_label(s))
    &&& (r matches Err(e) ==> e@ == "unknown window label: "@ + s)
}

/// Whether two strings read the same.
fn str_eq(s: &str, t: &str) -> (r: bool)
    ensures
        r == (s@ == t@),
{
    let n = s.unicode_len();
    let m = t.unicode_len();
    if n != m {
        return false;
    }
    let mut i: usize = 0;
    while i < n
        invariant
            i <= n,
            n == s@.len(),
            n == t@.len(),
            forall|k: int| 0 <= k < i ==> s@[k] == t@[k],
        decreases n - i,
    {
        if s.get_char(i) != t.get_char(i) {
            return false;
        }
        i = i + 1;
    }
    proof {
        assert(s@ =~= t@);
    }
    true
}

/// Whether `s` starts with `p`.
fn starts_with(s: &str, p: &str) -> (r: bool)
    ensures
        r == has_prefix(s@, p@),
{
    let n = s.unicode_len();
    let m = p.unicode_len();
    if m > n {
        return false;
    }
    let mut i: usize = 0;
    while i < m
        invariant
            i <= m <= n,
            n == s@.len(),
            m == p@.len(),
            forall|k: int| 0 <= k < i ==> s@[k] == p@[k],
        decreases m - i,
    {
        if s.get_char(i) != p.get_char(i) {
            proof {
                assert(s@.take(m as int)[i as int] == s@[i as int]);
            }
            return false;
        }
        i = i + 1;
    }
    proof {
        assert(s@.take(m as int) =~= p@);
    }
    true
}

/// The message every unparsable label is refused with.
fn unknown_label_message(s: &str) -> (m: String)
    ensures
        m@ == "unknown window label: "@ + s@,
{
    let mut m = String::from_str("unknown window label: ");
    m.append(s);
    m
}

impl CapWindowDef {
    /// Parses a window label back into its definition.
    pub fn from_label(s: &str) -> (r: Result<CapWindowDef, String>)
        ensures
            parse_label_post(s@, r),
    {
        proof {
            reveal_strlit("setup");
            reveal_strlit("main");
            reveal_strlit("settings");
            reveal_strlit("camera");
            reveal_strlit("capture-area");
            reveal_strlit("in-progress-recording");
            reveal_strlit("recordings-overlay");
            reveal_strlit("upgrade");
            reveal_strlit("mode-select");
            reveal_strlit("debug");
            reveal_strlit("editor-");
            reveal_strlit("screenshot-editor-");
            reveal_strlit("window-capture-occluder-");
            reveal_strlit("target-select-overlay-");
        }
        if str_eq(s, "setup") {
            return Ok(CapWindowDef::Setup);
        }
        if str_eq(s, "main") {
            return Ok(CapWindowDef::Main);
        }
        if str_eq(s, "settings") {
            return Ok(CapWindowDef::Settings);
        }
        if str_eq(s, "camera") {
            return Ok(CapWindowDef::Camera);
        }
        if str_eq(s, "capture-area") {
            return Ok(CapWindowDef::CaptureArea);
        }
        if str_eq(s, "in-progress-recording") {
            return Ok(CapWindowDef::RecordingControls);
        }
        if str_eq(s, "recordings-overlay") {
            return Ok(CapWindowDef::RecordingsOverlay);
        }
        if str_eq(s, "upgrade") {
            return Ok(CapWindowDef::Upgrade);
        }
        if str_eq(s, "mode-select") {
            return Ok(CapWindowDef::ModeSelect);
        }
        if str_eq(s, "debug") {
            return Ok(CapWindowDef::Debug);
        }
        if starts_with(s, "editor-") {
            proof {
                lemma_prefixes_exclusive(s@, "editor-"@);
            }
            let plen = "editor-".unicode_len();
            return match parse_u32(s, plen) {
                Some(id) => Ok(CapWindowDef::Editor { id }),
                None => Err(unknown_label_message(s)),
            };
        }
        if starts_with(s, "screenshot-editor-") {
            proof {
                lemma_prefixes_exclusive(s@, "screenshot-editor-"@);
            }
            let plen = "screenshot-editor-".unicode_len();
            return match parse_u32(s, plen) {
                Some(id) => Ok(CapWindowDef::ScreenshotEditor { id }),
                None => Err(unknown_label_message(s)),
            };
        }
        if starts_with(s, "window-capture-occluder-") {
            proof {
                lemma_prefixes_exclusive(s@, "window-capture-occluder-"@);
            }
            let plen = "window-capture-occluder-".unicode_len();
            let n = s.unicode_len();
            let screen_id = s.substring_char(plen, n).to_owned();
            proof {
                assert(s@.subrange(plen as int, n as int) =~= s@.skip(plen as int));
            }
            return Ok(CapWindowDef::WindowCaptureOccluder { screen_id });
        }
        if starts_with(s, "target-select-overlay-") {
            proof {
                lemma_prefixes_exclusive(s@, "target-select-overlay-"@);
            }
            let plen = "target-select-overlay-".unicode_len();
            let n = s.unicode_len();
            let display_id = s.substring_char(plen, n).to_owned();
            proof {
                assert(s@.subrange(plen as int, n as int) =~= s@.skip(plen as int));
            }
            return Ok(CapWindowDef::TargetSelectOverlay { display_id });
        }
        Err(unknown_label_message(s))
    }

    /// The label this window is opened and found under.
    pub fn label(&self) -> (l: String)
        ensures
            l@ == label_of(*self),
    {
        match self {
            CapWindowDef::Setup => String::from_str("setup"),
            CapWindowDef::Main => String::from_str("main"),
            CapWindowDef::Settings => String::from_str("settings"),
            CapWindowDef::Camera => String::from_str("camera"),
            CapWindowDef::CaptureArea => String::from_str("capture-area"),
            CapWindowDef::RecordingControls => String::from_str("in-progress-recording"),
            CapWindowDef::RecordingsOverlay => String::from_str("recordings-overlay"),
            CapWindowDef::Upgrade => String::from_str("upgrade"),
            CapWindowDef::ModeSelect => String::from_str("mode-select"),
            CapWindowDef::Debug => String::from_str("debug"),
            CapWindowDef::Editor { id } => {
                let mut l = String::from_str("editor-");
                let digits = u64_to_string(*id as u64);
                l.append(digits.as_str());
                l
            },
            CapWindowDef::ScreenshotEditor { id } => {
                let mut l = String::from_str("screenshot-editor-");
                let digits = u64_to_string(*id as u64);
                l.append(digits.as_str());
                l
            },
            CapWindowDef::WindowCaptureOccluder { screen_id } => {
                let mut l = String::from_str("window-capture-occluder-");
                l.append(screen_id.as_str());
                l
            },
            CapWindowDef::TargetSelectOverlay { display_id } => {
                let mut l = String::from_str("target-select-overlay-");
                l.append(display_id.as_str());
                l
            },
        }
    }
}

/// The title each window kind is shown under.
pub open spec fn spec_title(def: CapWindowDef) -> Seq<char> {
    match def {
        CapWindowDef::Setup => "Cap Setup"@,
        CapWindowDef::Settings => "Cap Settings"@,
        CapWindowDef::WindowCaptureOccluder { .. } => "Cap Window Capture Occluder"@,
        CapWindowDef::CaptureArea => "Cap Capture Area"@,
        CapWindowDef::RecordingControls => "Cap Recording Controls"@,
        CapWindowDef::Editor { .. } => "Cap Editor"@,
        CapWindowDef::ScreenshotEditor { .. } => "Cap Screenshot Editor"@,
        CapWindowDef::ModeSelect => "Cap Mode Selection"@,
        CapWindowDef::Camera => "Cap Camera"@,
        CapWindowDef::RecordingsOverlay => "Cap Recordings Overlay"@,
        CapWindowDef::TargetSelectOverlay { .. } => "Cap Target Select"@,
        _ => "Cap"@,
    }
}

/// The window kinds that make the application appear in the dock.
pub open spec fn spec_activates_dock(def: CapWindowDef) -> bool {
    match def {
        CapWindowDef::Setup => true,
        CapWindowDef::Main => true,
        CapWindowDef::Editor { .. } => true,
        CapWindowDef::ScreenshotEditor { .. } => true,
        CapWindowDef::Settings => true,
        CapWindowDef::Upgrade => true,
        CapWindowDef::ModeSelect => true,
        _ => false,
    }
}

/// The window kinds drawn without platform decorations.
pub open spec fn spec_undecorated(def: CapWindowDef) -> bool {
    match def {
        CapWindowDef::Camera => true,
        CapWindowDef::WindowCaptureOccluder { .. } => true,
        CapWindowDef::CaptureArea => true,
        CapWindowDef::RecordingsOverlay => true,
        CapWindowDef::TargetSelectOverlay { .. } => true,
        _ => false,
    }
}

impl CapWindowDef {
    /// The title this window is shown under.
    pub fn title(&self) -> (t: &'static str)
        ensures
            t@ == spec_title(*self),
    {
        match self {
            CapWindowDef::Setup => "Cap Setup",
            CapWindowDef::Settings => "Cap Settings",
            CapWindowDef::WindowCaptureOccluder { .. } => "Cap Window Capture Occluder",
            CapWindowDef::CaptureArea => "Cap Capture Area",
            CapWindowDef::RecordingControls => "Cap Recording Controls",
            CapWindowDef::Editor { .. } => "Cap Editor",
            CapWindowDef::ScreenshotEditor { .. } => "Cap Screenshot Editor",
            CapWindowDef::ModeSelect => "Cap Mode Selection",
            CapWindowDef::Camera => "Cap Camera",
            CapWindowDef::RecordingsOverlay => "Cap Recordings Overlay",
            CapWindowDef::TargetSelectOverlay { .. } => "Cap Target Select",
            _ => "Cap",
        }
    }

    /// Whether opening this window makes the application appear in the
    /// dock.
    pub fn activates_dock(&self) -> (r: bool)
        ensures
            r == spec_activates_dock(*self),
    {
        match self {
            CapWindowDef::Setup => true,
            CapWindowDef::Main => true,
            CapWindowDef::Editor { .. } => true,
            CapWindowDef::ScreenshotEditor { .. } => true,
            CapWindowDef::Settings => true,
            CapWindowDef::Upgrade => true,
            CapWindowDef::ModeSelect => true,
            _ => false,
        }
    }

    /// Whether this window is drawn without platform decorations.
    pub fn undecorated(&self) -> (r: bool)
        ensures
            r == spec_undecorated(*self),
    {
        match self {
            CapWindowDef::Camera => true,
            CapWindowDef::WindowCaptureOccluder { .. } => true,
            CapWindowDef::CaptureArea => true,
            CapWindowDef::RecordingsOverlay => true,
            CapWindowDef::TargetSelectOverlay { .. } => true,
            _ => false,
        }
    }

    /// Whether this window hides the standard window buttons.
    pub fn disables_window_buttons(&self) -> (r: bool)
        ensures
            r == (*self matches CapWindowDef::RecordingControls),
    {
        match self {
            CapWindowDef::RecordingControls => true,
            _ => false,
        }
    }

    /// Whether this window refuses to enter fullscreen.
    pub fn disables_fullscreen(&self) -> (r: bool)
        ensures
            r == (*self matches CapWindowDef::Settings),
    {
        match self {
            CapWindowDef::Settings => true,
            _ => false,
        }
    }

    /// Whether this window adopts the system's current glass styling.
    pub fn conforms_to_solarium(&self) -> (r: bool)
        ensures
            r == (*self matches CapWindowDef::Main),
    {
        match self {
            CapWindowDef::Main => true,
            _ => false,
        }
    }
}

/// The four parameterized label prefixes start with pairwise different
/// characters, so a string carries at most one of them.
proof fn lemma_prefixes_exclusive(s: Seq<char>, p: Seq<char>)
    requires
        has_prefix(s, p),
        p == "editor-"@ || p == "screenshot-editor-"@ || p == "window-capture-occluder-"@ || p
            == "target-select-overlay-"@,
    ensures
        forall|q: Seq<char>|
            (q == "editor-"@ || q == "screenshot-editor-"@ || q == "window-capture-occluder-"@ || q
                == "target-select-overlay-"@) && q != p ==> !has_prefix(s, q),
{
    reveal_strlit("editor-");
    reveal_strlit("screenshot-editor-");
    reveal_strlit("window-capture-occluder-");
    reveal_strlit("target-select-overlay-");
    assert(s.take(p.len() as int)[0] == s[0]);
    assert forall|q: Seq<char>|
        (q == "editor-"@ || q == "screenshot-editor-"@ || q == "window-capture-occluder-"@ || q
            == "target-select-overlay-"@) && q != p && has_prefix(s, q) implies false by {
        assert(s.take(q.len() as int)[0] == s[0]);
    }
}

/// Two definitions naming the same window: equal up to the view of their
/// display-id strings.
pub open spec fn same_window(a: CapWindowDef, b: CapWindowDef) -> bool {
    match (a, b) {
        (CapWindowDef::Setup, CapWindowDef::Setup) => true,
        (CapWindowDef::Main, CapWindowDef::Main) => true,
        (CapWindowDef::Settings, CapWindowDef::Settings) => true,
        (CapWindowDef::Camera, CapWindowDef::Camera) => true,
        (CapWindowDef::CaptureArea, CapWindowDef::CaptureArea) => true,
        (CapWindowDef::RecordingControls, CapWindowDef::RecordingControls) => true,
        (CapWindowDef::RecordingsOverlay, CapWindowDef::RecordingsOverlay) => true,
        (CapWindowDef::Upgrade, CapWindowDef::Upgrade) => true,
        (CapWindowDef::ModeSelect, CapWindowDef::ModeSelect) => true,
        (CapWindowDef::Debug, CapWindowDef::Debug) => true,
        (CapWindowDef::Editor { id: a_id }, CapWindowDef::Editor { id: b_id }) => a_id == b_id,
        (
            CapWindowDef::ScreenshotEditor { id: a_id },
            CapWindowDef::ScreenshotEditor { id: b_id },
        ) => a_id == b_id,
        (
            CapWindowDef::WindowCaptureOccluder { screen_id: a_id },
            CapWindowDef::WindowCaptureOccluder { screen_id: b_id },
        ) => a_id@ == b_id@,
        (
            CapWindowDef::TargetSelectOverlay { display_id: a_id },
            CapWindowDef::TargetSelectOverlay { display_id: b_id },
        ) => a_id@ == b_id@,
        _ => false,
    }
}

/// Every definition's own label is a window label.
proof fn lemma_own_label_parses(d: CapWindowDef)
    ensures
        is_window_label(label_of(d)),
{
    let lbl = label_of(d);
    match d {
        CapWindowDef::Editor { id } => {
            reveal_strlit("editor-");
            lemma_dec_str_val(id as nat);
            assert(lbl.take("editor-"@.len() as int) =~= "editor-"@);
            assert(lbl.skip("editor-"@.len() as int) =~= dec_str(id as nat));
        },
        CapWindowDef::ScreenshotEditor { id } => {
            reveal_strlit("screenshot-editor-");
            lemma_dec_str_val(id as nat);
            assert(lbl.take("screenshot-editor-"@.len() as int) =~= "screenshot-editor-"@);
            assert(lbl.skip("screenshot-editor-"@.len() as int) =~= dec_str(id as nat));
        },
        CapWindowDef::WindowCaptureOccluder { screen_id } => {
            reveal_strlit("window-capture-occluder-");
            assert(lbl.take("window-capture-occluder-"@.len() as int)
                =~= "window-capture-occluder-"@);
        },
        CapWindowDef::TargetSelectOverlay { display_id } => {
            reveal_strlit("target-select-overlay-");
            assert(lbl.take("target-select-overlay-"@.len() as int) =~= "target-select-overlay-"@);
        },
        _ => {},
    }
}

/// The lengths of the fixed labels, and the one same-length pair told
/// apart: with these facts two distinct fixed labels never compare equal.
proof fn lemma_fixed_labels_distinct()
    ensures
        "setup"@.len() == 5,
        "main"@.len() == 4,
        "settings"@.len() == 8,
        "camera"@.len() == 6,
        "capture-area"@.len() == 12,
        "in-progress-recording"@.len() == 21,
        "recordings-overlay"@.len() == 18,
        "upgrade"@.len() == 7,
        "mode-select"@.len() == 11,
        "debug"@.len() == 5,
        "setup"@ != "debug"@,
{
    reveal_strlit("setup");
    reveal_strlit("main");
    reveal_strlit("settings");
    reveal_strlit("camera");
    reveal_strlit("capture-area");
    reveal_strlit("in-progress-recording");
    reveal_strlit("recordings-overlay");
    reveal_strlit("upgrade");
    reveal_strlit("mode-select");
    reveal_strlit("debug");
    assert("setup"@ != "debug"@) by {
        assert("setup"@[0] == 's');
        assert("debug"@[0] == 'd');
    }
}

/// A definition's label never equals any of the fixed labels of other
/// kinds, nor carries another kind's prefix: the labels of the four
/// parameterized kinds start with `e`, `s`, `w`, `t` at positions where
/// every conflicting candidate differs.
proof fn lemma_own_label_unambiguous(d: CapWindowDef)
    requires
        d matches CapWindowDef::Editor { .. } || d matches CapWindowDef::ScreenshotEditor {
            ..
        } || d matches CapWindowDef::WindowCaptureOccluder { .. } || d matches
            CapWindowDef::TargetSelectOverlay { .. },
    ensures
        label_of(d) != "setup"@,
        label_of(d) != "main"@,
        label_of(d) != "settings"@,
        label_of(d) != "camera"@,
        label_of(d) != "capture-area"@,
        label_of(d) != "in-progress-recording"@,
        label_of(d) != "recordings-overlay"@,
        label_of(d) != "upgrade"@,
        label_of(d) != "mode-select"@,
        label_of(d) != "debug"@,
        d matches CapWindowDef::ScreenshotEditor { .. } ==> !has_prefix(label_of(d), "editor-"@),
        d matches CapWindowDef::WindowCaptureOccluder { .. } ==> !has_prefix(
            label_of(d),
            "editor-"@,
        ) && !has_prefix(label_of(d), "screenshot-editor-"@),
        d matches CapWindowDef::TargetSelectOverlay { .. } ==> !has_prefix(label_of(d), "editor-"@)
            && !has_prefix(label_of(d), "screenshot-editor-"@) && !has_prefix(
            label_of(d),
            "window-capture-occluder-"@,
        ),
{
    reveal_strlit("setup");
    reveal_strlit("main");
    reveal_strlit("settings");
    reveal_strlit("camera");
    reveal_strlit("capture-area");
    reveal_strlit("in-progress-recording");
    reveal_strlit("recordings-overlay");
    reveal_strlit("upgrade");
    reveal_strlit("mode-select");
    reveal_strlit("debug");
    reveal_strlit("editor-");
    reveal_strlit("screenshot-editor-");
    reveal_strlit("window-capture-occluder-");
    reveal_strlit("target-select-overlay-");
    assert("setup"@[0] == 's');
    assert("main"@[0] == 'm');
    assert("settings"@[0] == 's');
    assert("camera"@[0] == 'c');
    assert("capture-area"@[0] == 'c');
    assert("in-progress-recording"@[0] == 'i');
    assert("recordings-overlay"@[0] == 'r');
    assert("upgrade"@[0] == 'u');
    assert("mode-select"@[0] == 'm');
    assert("debug"@[0] == 'd');
    assert("setup"@[1] == 'e');
    assert("settings"@[1] == 'e');
    assert("editor-"@[0] == 'e');
    assert("screenshot-editor-"@[0] == 's');
    assert("screenshot-editor-"@[1] == 'c');
    assert("window-capture-occluder-"@[0] == 'w');
    assert("target-select-overlay-"@[0] == 't');
    let lbl = label_of(d);
    match d {
        CapWindowDef::Editor { id } => {
            assert(lbl[0] == 'e') by {
                assert(lbl[0] == "editor-"@[0]);
            }
        },
        CapWindowDef::ScreenshotEditor { id } => {
            assert(lbl[0] == 's' && lbl[1] == 'c') by {
                assert(lbl[0] == "screenshot-editor-"@[0]);
                assert(lbl[1] == "screenshot-editor-"@[1]);
            }
            if has_prefix(lbl, "editor-"@) {
                assert(lbl.take("editor-"@.len() as int)[0] == lbl[0]);
            }
        },
        CapWindowDef::WindowCaptureOccluder { screen_id } => {
            assert(lbl[0] == 'w') by {
                assert(lbl[0] == "window-capture-occluder-"@[0]);
            }
            if has_prefix(lbl, "editor-"@) {
                assert(lbl.take("editor-"@.len() as int)[0] == lbl[0]);
            }
            if has_prefix(lbl, "screenshot-editor-"@) {
                assert(lbl.take("screenshot-editor-"@.len() as int)[0] == lbl[0]);
            }
        },
        CapWindowDef::TargetSelectOverlay { display_id } => {
            assert(lbl[0] == 't') by {
                assert(lbl[0] == "target-select-overlay-"@[0]);
            }
            if has_prefix(lbl, "editor-"@) {
                assert(lbl.take("editor-"@.len() as int)[0] == lbl[0]);
            }
            if has_prefix(lbl, "screenshot-editor-"@) {
                assert(lbl.take("screenshot-editor-"@.len() as int)[0] == lbl[0]);
            }
            if has_prefix(lbl, "window-capture-occluder-"@) {
                assert(lbl.take("window-capture-occluder-"@.len() as int)[0] == lbl[0]);
            }
        },
        _ => {},
    }
}

/// Round trip: parsing a definition's own label yields that definition
/// back (display-id strings compared by their text).
pub proof fn lemma_label_round_trip(d: CapWindowDef, r: Result<CapWindowDef, String>)
    requires
        parse_label_post(label_of(d), r),
    ensures
        r matches Ok(parsed) && same_window(parsed, d),
{
    reveal_strlit("setup");
    reveal_strlit("main");
    reveal_strlit("settings");
    reveal_strlit("camera");
    reveal_strlit("capture-area");
    reveal_strlit("in-progress-recording");
    reveal_strlit("recordings-overlay");
    reveal_strlit("upgrade");
    reveal_strlit("mode-select");
    reveal_strlit("debug");
    reveal_strlit("editor-");
    reveal_strlit("screenshot-editor-");
    reveal_strlit("window-capture-occluder-");
    reveal_strlit("target-select-overlay-");
    lemma_own_label_parses(d);
    lemma_fixed_labels_distinct();
    let lbl = label_of(d);
    let parsed = r->Ok_0;
    match d {
        CapWindowDef::Setup => {},
        CapWindowDef::Main => {},
        CapWindowDef::Settings => {},
        CapWindowDef::Camera => {},
        CapWindowDef::CaptureArea => {},
        CapWindowDef::RecordingControls => {},
        CapWindowDef::RecordingsOverlay => {},
        CapWindowDef::Upgrade => {},
        CapWindowDef::ModeSelect => {},
        CapWindowDef::Debug => {},
        CapWindowDef::Editor { id } => {
            lemma_own_label_unambiguous(d);
            lemma_dec_str_val(id as nat);
            assert(lbl.take("editor-"@.len() as int) =~= "editor-"@);
            assert(lbl.skip("editor-"@.len() as int) =~= dec_str(id as nat));
        },
        CapWindowDef::ScreenshotEditor { id } => {
            lemma_own_label_unambiguous(d);
            lemma_dec_str_val(id as nat);
            assert(lbl.take("screenshot-editor-"@.len() as int) =~= "screenshot-editor-"@);
            assert(lbl.skip("screenshot-editor-"@.len() as int) =~= dec_str(id as nat));
        },
        CapWindowDef::WindowCaptureOccluder { screen_id } => {
            lemma_own_label_unambiguous(d);
            assert(lbl.take("window-capture-occluder-"@.len() as int)
                =~= "window-capture-occluder-"@);
            assert(lbl.skip("window-capture-occluder-"@.len() as int) =~= screen_id@);
        },
        CapWindowDef::TargetSelectOverlay { display_id } => {
            lemma_own_label_unambiguous(d);
            assert(lbl.take("target-select-overlay-"@.len() as int) =~= "target-select-overlay-"@);
            assert(lbl.skip("target-select-overlay-"@.len() as int) =~= display_id@);
        },
    }
}

} // verus!
