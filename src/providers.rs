//! The catalogue of clipboard backends and the command lines each one uses.
use crate::ClipError;
use vstd::prelude::*;

verus! {

/// The closed set of supported clipboard backends.
#[derive(Clone, Copy, Debug, PartialEq, Eq)]
pub enum Provider {
    /// The Windows clipboard API.
    Windows,
    /// macOS `pbcopy`.
    PbCopy,
    /// Windows tools reached from inside WSL.
    Wsl,
    /// `wl-copy` / `wl-paste` on Wayland.
    Wayland,
    /// `xsel` on X11.
    XSel,
    /// `xclip` on X11.
    XClip,
    /// KDE's Klipper over `qdbus`.
    Klipper,
}

/// An external command: a program name and its arguments.
pub struct Invocation {
    pub program: String,
    pub args: Vec<String>,
}

/// What an [`Invocation`] denotes: the program and argument texts.
pub struct InvocationView {
    pub program: Seq<char>,
    pub args: Seq<Seq<char>>,
}

impl View for Invocation {
    type V = InvocationView;

    open spec fn view(&self) -> InvocationView {
        InvocationView { program: self.program@, args: self.args@.map_values(|a: String| a@) }
    }
}

/// The command line `program args...`, with each argument given as a `&str`.
pub open spec fn command_line(program: &str, args: Seq<&str>) -> InvocationView {
    InvocationView { program: program@, args: args.map_values(|a: &str| a@) }
}

/// How a text is placed on the clipboard.
pub enum CopyAction {
    /// Hand the text to the operating system's clipboard API.
    SetNative(String),
    /// Run the command, write the text's UTF-8 bytes to its standard input,
    /// close it and wait for the command to exit.
    Feed(Invocation, String),
    /// Run the command with no input; it must exit with success.
    RunChecked(Invocation),
    /// Run the command with no input and wait for it to exit.
    Run(Invocation),
}

/// What a [`CopyAction`] denotes, over texts.
pub enum CopyActionView {
    SetNative(Seq<char>),
    Feed(InvocationView, Seq<char>),
    RunChecked(InvocationView),
    Run(InvocationView),
}

impl View for CopyAction {
    type V = CopyActionView;

    open spec fn view(&self) -> CopyActionView {
        match self {
            CopyAction::SetNative(t) => CopyActionView::SetNative(t@),
            CopyAction::Feed(c, t) => CopyActionView::Feed(c@, t@),
            CopyAction::RunChecked(c) => CopyActionView::RunChecked(c@),
            CopyAction::Run(c) => CopyActionView::Run(c@),
        }
    }
}

/// How the clipboard's text is read.
pub enum PasteAction {
    /// Ask the operating system's clipboard API.
    GetNative,
    /// Run the command and read its standard output to the end; when
    /// `quiet` holds, its standard error goes to the null sink.
    Read { command: Invocation, quiet: bool },
}

/// What a [`PasteAction`] denotes, over texts.
pub enum PasteActionView {
    GetNative,
    Read { command: InvocationView, quiet: bool },
}

impl View for PasteAction {
    type V = PasteActionView;

    open spec fn view(&self) -> PasteActionView {
        match self {
            PasteAction::GetNative => PasteActionView::GetNative,
            PasteAction::Read { command, quiet } => PasteActionView::Read {
                command: command@,
                quiet: *quiet,
            },
        }
    }
}

/// The klipper D-Bus service, object and the method that sets its contents.
pub open spec fn klipper_set(text: Seq<char>) -> InvocationView {
    InvocationView {
        program: "qdbus"@,
        args: seq!["org.kde.klipper"@, "/klipper"@, "setClipboardContents"@, text],
    }
}

/// How each backend places `text` on the clipboard.
pub open spec fn copy_plan(p: Provider, text: Seq<char>) -> CopyActionView {
    match p {
        Provider::Windows => CopyActionView::SetNative(text),
        Provider::PbCopy => CopyActionView::Feed(command_line("pbcopy", seq!["w"]), text),
        Provider::Wsl => CopyActionView::Feed(command_line("clip.exe", seq![]), text),
        Provider::Wayland => if text.len() == 0 {
            CopyActionView::RunChecked(command_line("wl-copy", seq!["-p", "--clear"]))
        } else {
            CopyActionView::Feed(command_line("wl-copy", seq!["-p"]), text)
        },
        Provider::XSel => CopyActionView::Feed(command_line("xsel", seq!["-b", "-i"]), text),
        Provider::XClip => CopyActionView::Feed(
            command_line("xclip", seq!["-selection", "c"]),
            text,
        ),
        Provider::Klipper => CopyActionView::Run(klipper_set(text)),
    }
}

/// How each backend reads the clipboard.
pub open spec fn paste_plan(p: Provider) -> PasteActionView {
    match p {
        Provider::Windows => PasteActionView::GetNative,
        Provider::PbCopy => PasteActionView::Read {
            command: command_line("pbcopy", seq!["r"]),
            quiet: false,
        },
        Provider::Wsl => PasteActionView::Read {
            command: command_line(
                "powershell.exe",
                seq!["-noprofile", "-command", "Get-Clipboard"],
            ),
            quiet: false,
        },
        Provider::Wayland => PasteActionView::Read {
            command: command_line("wl-paste", seq!["-n", "-p"]),
            quiet: false,
        },
        Provider::XSel => PasteActionView::Read {
            command: command_line("xsel", seq!["-b", "-o"]),
            quiet: false,
        },
        Provider::XClip => PasteActionView::Read {
            command: command_line("xclip", seq!["-selection", "c", "-o"]),
            quiet: true,
        },
        Provider::Klipper => PasteActionView::Read {
            command: command_line(
                "qdbus",
                seq!["org.kde.klipper", "/klipper", "getClipboardContents"],
            ),
            quiet: false,
        },
    }
}

/// Builds the command `program args...`.
pub fn invocation(program: &str, args: Vec<&str>) -> (r: Invocation)
    ensures
        r@ == command_line(program, args@),
{
    let mut out: Vec<String> = Vec::new();
    let mut i: usize = 0;
    while i < args.len()
        invariant
            i <= args@.len(),
            out@.len() == i,
            forall|j: int| 0 <= j < i ==> out@[j]@ == args@[j]@,
        decreases args@.len() - i,
    {
        out.push(args[i].to_owned());
        i += 1;
    }
    assert(out@.map_values(|a: String| a@) =~= args@.map_values(|a: &str| a@));
    Invocation { program: program.to_owned(), args: out }
}

/// A clipboard backend: how it copies a text and how it pastes.
pub trait Clipboard {
    /// The backend this type stands for.
    spec fn provider() -> Provider;

    /// The action that places `text` on the clipboard.
    fn copy(text: &str) -> (r: CopyAction)
        ensures
            r@ == copy_plan(Self::provider(), text@),
    ;

    /// The action that reads the clipboard.
    fn paste() -> (r: PasteAction)
        ensures
            r@ == paste_plan(Self::provider()),
    ;
}

/// The Windows clipboard API.
pub struct Windows {}

/// macOS `pbcopy`.
pub struct PbCopy {}

/// The Windows clipboard reached from WSL through `clip.exe` and PowerShell.
pub struct Wsl {}

/// The Wayland primary selection through `wl-copy` and `wl-paste`.
pub struct Wayland {}

/// The X11 clipboard through `xsel`.
pub struct XSel {}

/// The X11 clipboard through `xclip`.
pub struct XClip {}

/// KDE's Klipper through `qdbus`.
pub struct Klipper {}

impl Clipboard for Windows {
    open spec fn provider() -> Provider {
        Provider::Windows
    }

    fn copy(text: &str) -> (r: CopyAction) {
        CopyAction::SetNative(text.to_owned())
    }

    fn paste() -> (r: PasteAction) {
        PasteAction::GetNative
    }
}

impl Clipboard for PbCopy {
    open spec fn provider() -> Provider {
        Provider::PbCopy
    }

    fn copy(text: &str) -> (r: CopyAction) {
        let args = vec!["w"];
        assert(args@ =~= seq!["w"]);
        CopyAction::Feed(invocation("pbcopy", args), text.to_owned())
    }

    fn paste() -> (r: PasteAction) {
        let args = vec!["r"];
        assert(args@ =~= seq!["r"]);
        PasteAction::Read { command: invocation("pbcopy", args), quiet: false }
    }
}

impl Clipboard for Wsl {
    open spec fn provider() -> Provider {
        Provider::Wsl
    }

    fn copy(text: &str) -> (r: CopyAction) {
        CopyAction::Feed(invocation("clip.exe", vec![]), text.to_owned())
    }

    fn paste() -> (r: PasteAction) {
        PasteAction::Read {
            command: invocation("powershell.exe", vec!["-noprofile", "-command", "Get-Clipboard"]),
            quiet: false,
        }
    }
}

impl Clipboard for Wayland {
    open spec fn provider() -> Provider {
        Provider::Wayland
    }

    fn copy(text: &str) -> (r: CopyAction) {
        if text.is_empty() {
            CopyAction::RunChecked(invocation("wl-copy", vec!["-p", "--clear"]))
        } else {
            let args = vec!["-p"];
            assert(args@ =~= seq!["-p"]);
            CopyAction::Feed(invocation("wl-copy", args), text.to_owned())
        }
    }

    fn paste() -> (r: PasteAction) {
        PasteAction::Read { command: invocation("wl-paste", vec!["-n", "-p"]), quiet: false }
    }
}

impl Clipboard for XSel {
    open spec fn provider() -> Provider {
        Provider::XSel
    }

    fn copy(text: &str) -> (r: CopyAction) {
        CopyAction::Feed(invocation("xsel", vec!["-b", "-i"]), text.to_owned())
    }

    fn paste() -> (r: PasteAction) {
        PasteAction::Read { command: invocation("xsel", vec!["-b", "-o"]), quiet: false }
    }
}

impl Clipboard for XClip {
    open spec fn provider() -> Provider {
        Provider::XClip
    }

    fn copy(text: &str) -> (r: CopyAction) {
        CopyAction::Feed(invocation("xclip", vec!["-selection", "c"]), text.to_owned())
    }

    fn paste() -> (r: PasteAction) {
        PasteAction::Read { command: invocation("xclip", vec!["-selection", "c", "-o"]), quiet: true }
    }
}

impl Clipboard for Klipper {
    open spec fn provider() -> Provider {
        Provider::Klipper
    }

    fn copy(text: &str) -> (r: CopyAction) {
        let command = invocation(
            "qdbus",
            vec!["org.kde.klipper", "/klipper", "setClipboardContents", text],
        );
        assert(command@.args =~= klipper_set(text@).args);
        CopyAction::Run(command)
    }

    fn paste() -> (r: PasteAction) {
        PasteAction::Read {
            command: invocation("qdbus", vec!["org.kde.klipper", "/klipper", "getClipboardContents"]),
            quiet: false,
        }
    }
}

/// The action that places `text` on the clipboard through backend `p`.
pub fn copy_action(p: Provider, text: &str) -> (r: CopyAction)
    ensures
        r@ == copy_plan(p, text@),
{
    match p {
        Provider::Windows => Windows::copy(text),
        Provider::PbCopy => PbCopy::copy(text),
        Provider::Wsl => Wsl::copy(text),
        Provider::Wayland => Wayland::copy(text),
        Provider::XSel => XSel::copy(text),
        Provider::XClip => XClip::copy(text),
        Provider::Klipper => Klipper::copy(text),
    }
}

/// The action that reads the clipboard through backend `p`.
pub fn paste_action(p: Provider) -> (r: PasteAction)
    ensures
        r@ == paste_plan(p),
{
    match p {
        Provider::Windows => Windows::paste(),
        Provider::PbCopy => PbCopy::paste(),
        Provider::Wsl => Wsl::paste(),
        Provider::Wayland => Wayland::paste(),
        Provider::XSel => XSel::paste(),
        Provider::XClip => XClip::paste(),
        Provider::Klipper => Klipper::paste(),
    }
}

/// The byte `\r`.
pub const CR: u8 = 13;

/// The byte `\n`.
pub const LF: u8 = 10;

/// `s` without one trailing `\r\n`, when it ends with one.
pub open spec fn strip_crlf(s: Seq<u8>) -> Seq<u8> {
    if s.len() >= 2 && s[s.len() - 2] == CR && s[s.len() - 1] == LF {
        s.subrange(0, s.len() - 2)
    } else {
        s
    }
}

/// Whether the standard output `raw` of backend `p` has the shape its format
/// guarantees: qdbus always ends its output with `\n`.
pub open spec fn well_formed(p: Provider, raw: Seq<u8>) -> bool {
    p == Provider::Klipper ==> raw.len() > 0 && raw.last() == LF
}

/// The clipboard text that backend `p` means by the well-formed standard
/// output `raw`: PowerShell appends `\r\n` and qdbus appends `\n`, which are
/// dropped.
pub open spec fn pasted(p: Provider, raw: Seq<u8>) -> Seq<u8> {
    match p {
        Provider::Wsl => strip_crlf(raw),
        Provider::Klipper => raw.drop_last(),
        _ => raw,
    }
}

/// Whether the standard output `raw` of backend `p` is well formed; output
/// that is not breaks an invariant of the host's tools.
pub fn output_well_formed(p: Provider, raw: &Vec<u8>) -> (r: bool)
    ensures
        r == well_formed(p, raw@),
{
    match p {
        Provider::Klipper => raw.len() > 0 && raw[raw.len() - 1] == LF,
        _ => true,
    }
}

/// Post-processes the standard output `raw` that backend `p` printed when
/// asked for the clipboard.
pub fn finish_paste(p: Provider, raw: Vec<u8>) -> (r: Vec<u8>)
    requires
        well_formed(p, raw@),
    ensures
        r@ == pasted(p, raw@),
{
    let mut raw = raw;
    let n = raw.len();
    match p {
        Provider::Wsl => {
            if n >= 2 && raw[n - 2] == CR && raw[n - 1] == LF {
                raw.truncate(n - 2);
            }
            raw
        },
        Provider::Klipper => {
            raw.truncate(n - 1);
            raw
        },
        _ => raw,
    }
}

/// The outcome of a command that must exit with success.
pub open spec fn checked_outcome(success: bool) -> Result<(), ClipError> {
    if success {
        Ok(())
    } else {
        Err(ClipError::ClearFailed)
    }
}

/// The result of a [`CopyAction::RunChecked`] whose command exited with
/// `success`.
pub fn finish_checked(success: bool) -> (r: Result<(), ClipError>)
    ensures
        r == checked_outcome(success),
{
    if success {
        Ok(())
    } else {
        Err(ClipError::ClearFailed)
    }
}

/// On Wayland an empty text clears the selection with `wl-copy -p --clear`,
/// and the copy succeeds exactly when that command exits with success.
pub proof fn lemma_wayland_empty_clear(text: Seq<char>, success: bool)
    requires
        text.len() == 0,
    ensures
        copy_plan(Provider::Wayland, text) == CopyActionView::RunChecked(
            command_line("wl-copy", seq!["-p", "--clear"]),
        ),
        checked_outcome(success) is Ok <==> success,
        !success ==> checked_outcome(success) == Err::<(), ClipError>(ClipError::ClearFailed),
{
}

/// The trailer a backend's paste command appends to the clipboard text.
pub open spec fn paste_trailer(p: Provider) -> Seq<u8> {
    match p {
        Provider::Wsl => seq![CR, LF],
        Provider::Klipper => seq![LF],
        _ => Seq::empty(),
    }
}

/// Post-processing gives back exactly the clipboard text `s` from what the
/// backend prints for it, whatever the text ends with; that output is well
/// formed.
pub proof fn lemma_paste_undoes_trailer(p: Provider, s: Seq<u8>)
    ensures
        well_formed(p, s + paste_trailer(p)),
        pasted(p, s + paste_trailer(p)) == s,
{
    let t = s + paste_trailer(p);
    match p {
        Provider::Wsl => {
            assert(t.subrange(0, t.len() - 2) =~= s);
        },
        Provider::Klipper => {
            assert(t.drop_last() =~= s);
        },
        _ => {
            assert(t =~= s);
        },
    }
}

} // verus!
