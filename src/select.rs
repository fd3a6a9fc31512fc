//! Choosing one clipboard backend from facts about the host.
use crate::providers::{invocation, Invocation, InvocationView, Provider};
use crate::ClipError;
use vstd::prelude::*;

verus! {

/// The operating system family the library runs on.
#[derive(Clone, Copy, Debug, PartialEq, Eq)]
pub enum HostOs {
    Windows,
    MacOs,
    /// Linux and the other Unix-like systems, WSL included.
    Other,
}

/// A command-line tool whose presence the selector asks about.
#[derive(Clone, Copy, Debug, PartialEq, Eq)]
pub enum Tool {
    WlCopy,
    Xsel,
    Xclip,
    Klipper,
    Qdbus,
}

/// The name under which `t` is looked up on the `PATH`.
pub open spec fn tool_name(t: Tool) -> Seq<char> {
    match t {
        Tool::WlCopy => "wl-copy"@,
        Tool::Xsel => "xsel"@,
        Tool::Xclip => "xclip"@,
        Tool::Klipper => "klipper"@,
        Tool::Qdbus => "qdbus"@,
    }
}

/// The command whose success tells that `t` is installed: `which <name>`.
pub open spec fn presence_probe(t: Tool) -> InvocationView {
    InvocationView { program: "which"@, args: seq![tool_name(t)] }
}

/// The command that probes for tool `t`; it is to be run with its standard
/// output and error sent to the null sink, and a spawn failure counts as
/// absence.
pub fn presence_command(t: Tool) -> (r: Invocation)
    ensures
        r@ == presence_probe(t),
{
    let name = match t {
        Tool::WlCopy => "wl-copy",
        Tool::Xsel => "xsel",
        Tool::Xclip => "xclip",
        Tool::Klipper => "klipper",
        Tool::Qdbus => "qdbus",
    };
    let args = vec![name];
    assert(args@ =~= seq![name]);
    let r = invocation("which", args);
    assert(r@.args =~= seq![tool_name(t)]);
    r
}

/// What the selector knows of the host.
pub struct HostFacts {
    pub os: HostOs,
    /// The contents of `/proc/version`, when it could be read as UTF-8.
    pub proc_version: Option<Vec<u8>>,
    /// Whether `WAYLAND_DISPLAY` is set.
    pub wayland_display: bool,
    /// Whether `which` finds each tool.
    pub wl_copy: bool,
    pub xsel: bool,
    pub xclip: bool,
    pub klipper: bool,
    pub qdbus: bool,
}

/// What [`HostFacts`] denotes: `/proc/version` as a byte sequence.
pub struct HostFactsView {
    pub os: HostOs,
    pub proc_version: Option<Seq<u8>>,
    pub wayland_display: bool,
    pub wl_copy: bool,
    pub xsel: bool,
    pub xclip: bool,
    pub klipper: bool,
    pub qdbus: bool,
}

impl View for HostFacts {
    type V = HostFactsView;

    open spec fn view(&self) -> HostFactsView {
        HostFactsView {
            os: self.os,
            proc_version: match self.proc_version {
                Some(v) => Some(v@),
                None => None,
            },
            wayland_display: self.wayland_display,
            wl_copy: self.wl_copy,
            xsel: self.xsel,
            xclip: self.xclip,
            klipper: self.klipper,
            qdbus: self.qdbus,
        }
    }
}

/// The ASCII bytes of `microsoft`, the marker of a WSL kernel.
pub open spec fn wsl_marker() -> Seq<u8> {
    seq![109u8, 105u8, 99u8, 114u8, 111u8, 115u8, 111u8, 102u8, 116u8]
}

/// `b` with an ASCII capital letter turned into its small letter.
pub open spec fn ascii_lower(b: u8) -> u8 {
    if 65 <= b <= 90 {
        (b + 32) as u8
    } else {
        b
    }
}

/// Whether `text` holds `word` at offset `i`, ignoring the case of ASCII
/// letters in `text`; `word` is in small letters.
pub open spec fn folds_at(text: Seq<u8>, word: Seq<u8>, i: int) -> bool {
    &&& 0 <= i
    &&& i + word.len() <= text.len()
    &&& forall|j: int| 0 <= j < word.len() ==> ascii_lower(#[trigger] text[i + j]) == word[j]
}

/// Whether `text`, with its ASCII letters in small case, contains `microsoft`.
pub open spec fn mentions_wsl(text: Seq<u8>) -> bool {
    exists|i: int| folds_at(text, wsl_marker(), i)
}

/// Whether the host's `/proc/version` marks a WSL kernel.
pub open spec fn is_wsl(proc_version: Option<Seq<u8>>) -> bool {
    match proc_version {
        Some(v) => mentions_wsl(v),
        None => false,
    }
}

/// The backend chosen on a host: the first rule that matches wins.
pub open spec fn selection(f: HostFactsView) -> Result<Provider, ClipError> {
    if f.os == HostOs::Windows {
        Ok(Provider::Windows)
    } else if f.os == HostOs::MacOs {
        Ok(Provider::PbCopy)
    } else if is_wsl(f.proc_version) {
        Ok(Provider::Wsl)
    } else if f.wayland_display && f.wl_copy {
        Ok(Provider::Wayland)
    } else if f.xsel {
        Ok(Provider::XSel)
    } else if f.xclip {
        Ok(Provider::XClip)
    } else if f.klipper && f.qdbus {
        Ok(Provider::Klipper)
    } else {
        Err(ClipError::NoProvider)
    }
}

/// `b` with an ASCII capital letter turned into its small letter.
fn lower_byte(b: u8) -> (r: u8)
    ensures
        r == ascii_lower(b),
{
    if 65 <= b && b <= 90 {
        b + 32
    } else {
        b
    }
}

/// Whether `text` contains `microsoft`, whatever the case of its letters.
pub fn mentions_microsoft(text: &[u8]) -> (r: bool)
    ensures
        r == mentions_wsl(text@),
{
    let word: Vec<u8> = vec![109u8, 105u8, 99u8, 114u8, 111u8, 115u8, 111u8, 102u8, 116u8];
    assert(word@ =~= wsl_marker());
    let n = text.len();
    let m = word.len();
    if n < m {
        assert(!mentions_wsl(text@)) by {
            if exists|i: int| folds_at(text@, wsl_marker(), i) {
                let i = choose|i: int| folds_at(text@, wsl_marker(), i);
                assert(i + 9 <= n);
            }
        }
        return false;
    }
    let mut i: usize = 0;
    while i <= n - m
        invariant
            n == text@.len(),
            m == word@.len(),
            m <= n,
            i <= n - m + 1,
            word@ == wsl_marker(),
            forall|k: int| 0 <= k < i ==> !folds_at(text@, wsl_marker(), k),
        decreases n - m + 1 - i,
    {
        let mut j: usize = 0;
        let mut same = true;
        while j < m
            invariant
                n == text@.len(),
                m == word@.len(),
                i + m <= n,
                j <= m,
                word@ == wsl_marker(),
                same ==> forall|k: int| 0 <= k < j ==> ascii_lower(#[trigger] text@[i + k])
                    == word@[k],
                !same ==> !folds_at(text@, wsl_marker(), i as int),
            decreases m - j,
        {
            if same && lower_byte(text[i + j]) != word[j] {
                same = false;
                assert(ascii_lower(text@[i + j]) != word@[j as int]);
            }
            j += 1;
        }
        if same {
            assert(folds_at(text@, wsl_marker(), i as int));
            return true;
        }
        i += 1;
    }
    assert(!mentions_wsl(text@)) by {
        if exists|k: int| folds_at(text@, wsl_marker(), k) {
            let k = choose|k: int| folds_at(text@, wsl_marker(), k);
            assert(k < i);
        }
    }
    false
}

/// Whether the contents of `/proc/version`, if any, mark a WSL kernel.
pub fn wsl(proc_version: &Option<Vec<u8>>) -> (r: bool)
    ensures
        r == is_wsl(
            match proc_version {
                Some(v) => Some(v@),
                None => None,
            },
        ),
{
    match proc_version {
        Some(v) => mentions_microsoft(v.as_slice()),
        None => false,
    }
}

/// Chooses the clipboard backend for the host described by `facts`.
pub fn select(facts: &HostFacts) -> (r: Result<Provider, ClipError>)
    ensures
        r == selection(facts@),
{
    match facts.os {
        HostOs::Windows => Ok(Provider::Windows),
        HostOs::MacOs => Ok(Provider::PbCopy),
        HostOs::Other => {
            if wsl(&facts.proc_version) {
                Ok(Provider::Wsl)
            } else if facts.wayland_display && facts.wl_copy {
                Ok(Provider::Wayland)
            } else if facts.xsel {
                Ok(Provider::XSel)
            } else if facts.xclip {
                Ok(Provider::XClip)
            } else if facts.klipper && facts.qdbus {
                Ok(Provider::Klipper)
            } else {
                Err(ClipError::NoProvider)
            }
        },
    }
}

/// The selector reads nothing but the operating system, whether
/// `/proc/version` marks WSL, and the environment and tool flags: two hosts
/// that agree on these get the same backend.
pub proof fn lemma_selection_deterministic(f: HostFactsView, g: HostFactsView)
    requires
        f.os == g.os,
        is_wsl(f.proc_version) == is_wsl(g.proc_version),
        f.wayland_display == g.wayland_display,
        f.wl_copy == g.wl_copy,
        f.xsel == g.xsel,
        f.xclip == g.xclip,
        f.klipper == g.klipper,
        f.qdbus == g.qdbus,
    ensures
        selection(f) == selection(g),
{
}

/// On a Unix-like host that is not WSL and has no usable Wayland, `xsel`
/// wins whenever it is installed, whatever else is; `xclip` wins over
/// Klipper in the same way.
pub proof fn lemma_x11_priority(f: HostFactsView)
    requires
        f.os == HostOs::Other,
        !is_wsl(f.proc_version),
        !(f.wayland_display && f.wl_copy),
    ensures
        f.xsel ==> selection(f) == Ok::<Provider, ClipError>(Provider::XSel),
        !f.xsel && f.xclip ==> selection(f) == Ok::<Provider, ClipError>(Provider::XClip),
{
}

/// `Microsoft` in ASCII bytes.
pub open spec fn capital_marker() -> Seq<u8> {
    seq![77u8, 105u8, 99u8, 114u8, 111u8, 115u8, 111u8, 102u8, 116u8]
}

/// When `/proc/version` contains `Microsoft` or `microsoft`, WSL is chosen on
/// a Unix-like host even if X11 or Wayland tools are installed.
pub proof fn lemma_wsl_precedence(f: HostFactsView, i: int)
    requires
        f.os == HostOs::Other,
        f.proc_version is Some,
        0 <= i,
        i + 9 <= f.proc_version->Some_0.len(),
        f.proc_version->Some_0.subrange(i, i + 9) == wsl_marker()
            || f.proc_version->Some_0.subrange(i, i + 9) == capital_marker(),
    ensures
        selection(f) == Ok::<Provider, ClipError>(Provider::Wsl),
{
    let v = f.proc_version->Some_0;
    assert forall|j: int| 0 <= j < 9 implies ascii_lower(#[trigger] v[i + j]) == wsl_marker()[j] by {
        assert(v[i + j] == v.subrange(i, i + 9)[j]);
    }
    assert(folds_at(v, wsl_marker(), i));
}

/// One step of detection: ask whether a tool is installed, or the answer.
#[derive(Clone, Copy, Debug, PartialEq, Eq)]
pub enum Step {
    Ask(Tool),
    Done(Result<Provider, ClipError>),
}

/// Whether `f` says that `t` is installed.
pub open spec fn present(f: HostFactsView, t: Tool) -> bool {
    match t {
        Tool::WlCopy => f.wl_copy,
        Tool::Xsel => f.xsel,
        Tool::Xclip => f.xclip,
        Tool::Klipper => f.klipper,
        Tool::Qdbus => f.qdbus,
    }
}

/// The X11 and KDE rules, given the answers about `xsel`, `xclip`,
/// `klipper` and `qdbus` in that order, as far as they were asked.
pub open spec fn x11_step(a: Seq<bool>) -> Step {
    if a.len() == 0 {
        Step::Ask(Tool::Xsel)
    } else if a[0] {
        Step::Done(Ok(Provider::XSel))
    } else if a.len() == 1 {
        Step::Ask(Tool::Xclip)
    } else if a[1] {
        Step::Done(Ok(Provider::XClip))
    } else if a.len() == 2 {
        Step::Ask(Tool::Klipper)
    } else if !a[2] {
        Step::Done(Err(ClipError::NoProvider))
    } else if a.len() == 3 {
        Step::Ask(Tool::Qdbus)
    } else if a[3] {
        Step::Done(Ok(Provider::Klipper))
    } else {
        Step::Done(Err(ClipError::NoProvider))
    }
}

/// The next step of detection on a host with operating system `os`, whose
/// `/proc/version` marks WSL when `wsl` holds, with `WAYLAND_DISPLAY` set
/// when `wayland` holds, and whose earlier `which` answers are `a`: the tool
/// of the first rule not yet decided is asked for, and nothing else.
pub open spec fn step_spec(os: HostOs, wsl: bool, wayland: bool, a: Seq<bool>) -> Step {
    if os == HostOs::Windows {
        Step::Done(Ok(Provider::Windows))
    } else if os == HostOs::MacOs {
        Step::Done(Ok(Provider::PbCopy))
    } else if wsl {
        Step::Done(Ok(Provider::Wsl))
    } else if wayland {
        if a.len() == 0 {
            Step::Ask(Tool::WlCopy)
        } else if a[0] {
            Step::Done(Ok(Provider::Wayland))
        } else {
            x11_step(a.drop_first())
        }
    } else {
        x11_step(a)
    }
}

/// The step of detection on host `f` after the answers `a`.
pub open spec fn step_on(f: HostFactsView, a: Seq<bool>) -> Step {
    step_spec(f.os, is_wsl(f.proc_version), f.wayland_display, a)
}

/// Whether `a` holds, in order, the true answers about `f` to the questions
/// that detection asked.
pub open spec fn answered(f: HostFactsView, a: Seq<bool>) -> bool {
    forall|i: int|
        0 <= i < a.len() ==> (#[trigger] step_on(f, a.take(i)) is Ask && a[i] == present(
            f,
            step_on(f, a.take(i))->Ask_0,
        ))
}

/// The next step of detection: which tool to look for, or the backend.
pub fn next_step(os: HostOs, wsl: bool, wayland: bool, answers: &Vec<bool>) -> (r: Step)
    ensures
        r == step_spec(os, wsl, wayland, answers@),
{
    let a = answers;
    match os {
        HostOs::Windows => Step::Done(Ok(Provider::Windows)),
        HostOs::MacOs => Step::Done(Ok(Provider::PbCopy)),
        HostOs::Other => {
            if wsl {
                return Step::Done(Ok(Provider::Wsl));
            }
            let k: usize = if wayland {
                if a.len() == 0 {
                    return Step::Ask(Tool::WlCopy);
                } else if a[0] {
                    return Step::Done(Ok(Provider::Wayland));
                }
                1
            } else {
                0
            };
            let ghost x = if wayland {
                a@.drop_first()
            } else {
                a@
            };
            assert(x.len() == a@.len() - k);
            assert(forall|i: int| 0 <= i < x.len() ==> x[i] == a@[i + k]);
            let n = a.len() - k;
            if n == 0 {
                Step::Ask(Tool::Xsel)
            } else if a[k] {
                Step::Done(Ok(Provider::XSel))
            } else if n == 1 {
                Step::Ask(Tool::Xclip)
            } else if a[k + 1] {
                Step::Done(Ok(Provider::XClip))
            } else if n == 2 {
                Step::Ask(Tool::Klipper)
            } else if !a[k + 2] {
                Step::Done(Err(ClipError::NoProvider))
            } else if n == 3 {
                Step::Ask(Tool::Qdbus)
            } else if a[k + 3] {
                Step::Done(Ok(Provider::Klipper))
            } else {
                Step::Done(Err(ClipError::NoProvider))
            }
        },
    }
}

/// Detection driven by the true answers about a host ends with the backend
/// that [`selection`] gives for it, after at most five questions.
pub proof fn lemma_steps_agree_with_selection(f: HostFactsView, a: Seq<bool>)
    requires
        answered(f, a),
    ensures
        a.len() <= 5,
        step_on(f, a) is Done ==> step_on(f, a)->Done_0 == selection(f),
        step_on(f, a) is Ask ==> answered(f, a.push(present(f, step_on(f, a)->Ask_0))),
{
    let w = f.wayland_display;
    assert forall|i: int| 0 <= i < a.len() && i <= 5 implies a.take(i) =~= a.subrange(0, i) by {}
    if a.len() > 0 {
        assert(step_on(f, a.take(0)) is Ask);
    }
    if a.len() > 1 {
        assert(step_on(f, a.take(1)) is Ask);
        assert(a.take(1).drop_first() =~= Seq::<bool>::empty());
    }
    if a.len() > 2 {
        assert(step_on(f, a.take(2)) is Ask);
        assert(a.take(2).drop_first() =~= seq![a[1]]);
    }
    if a.len() > 3 {
        assert(step_on(f, a.take(3)) is Ask);
        assert(a.take(3).drop_first() =~= seq![a[1], a[2]]);
    }
    if a.len() > 4 {
        assert(step_on(f, a.take(4)) is Ask);
        assert(a.take(4).drop_first() =~= seq![a[1], a[2], a[3]]);
    }
    if a.len() > 5 {
        assert(step_on(f, a.take(5)) is Ask);
        assert(a.take(5).drop_first() =~= seq![a[1], a[2], a[3], a[4]]);
    }
    if a.len() > 0 {
        assert(a.drop_first().len() == a.len() - 1);
    }
    let b = a.push(present(f, step_on(f, a)->Ask_0));
    if step_on(f, a) is Ask {
        assert forall|i: int| 0 <= i < b.len() implies (#[trigger] step_on(f, b.take(i)) is Ask
            && b[i] == present(f, step_on(f, b.take(i))->Ask_0)) by {
            if i < a.len() {
                assert(b.take(i) =~= a.take(i));
            } else {
                assert(b.take(i) =~= a);
            }
        }
    }
}

} // verus!
