use clipp::cache::SelectionCache;
use clipp::providers::{
    copy_action, finish_checked, finish_paste, invocation, output_well_formed, paste_action, Clipboard, CopyAction,
    Invocation, Klipper, PasteAction, PbCopy, Provider, Wayland, Windows, Wsl, XClip, XSel,
};
use clipp::select::{
    mentions_microsoft, next_step, presence_command, select, wsl, HostFacts, HostOs, Step, Tool,
};
use clipp::{copy, copy2, paste, paste2, ClipError};

fn linux() -> HostFacts {
    HostFacts {
        os: HostOs::Other,
        proc_version: Some(b"Linux version 6.1.0-13-amd64 (gcc 12.2.0)".to_vec()),
        wayland_display: false,
        wl_copy: false,
        xsel: false,
        xclip: false,
        klipper: false,
        qdbus: false,
    }
}

fn line(inv: &Invocation) -> Vec<String> {
    let mut out = vec![inv.program.clone()];
    out.extend(inv.args.iter().cloned());
    out
}

fn fed(action: &CopyAction) -> (Vec<String>, String) {
    match action {
        CopyAction::Feed(inv, text) => (line(inv), text.clone()),
        _ => panic!("expected a command fed through standard input"),
    }
}

fn read(action: &PasteAction) -> (Vec<String>, bool) {
    match action {
        PasteAction::Read { command, quiet } => (line(command), *quiet),
        PasteAction::GetNative => panic!("expected a command to read"),
    }
}

#[test]
fn xsel_wins_over_xclip_on_x11() {
    let mut f = linux();
    f.xsel = true;
    f.xclip = true;
    assert_eq!(select(&f), Ok(Provider::XSel));
    let (cmd, text) = fed(&copy_action(Provider::XSel, "hello"));
    assert_eq!(cmd, vec!["xsel", "-b", "-i"]);
    assert_eq!(text, "hello");
    assert_eq!(read(&paste_action(Provider::XSel)), (vec!["xsel".to_string(), "-b".to_string(), "-o".to_string()], false));
    assert_eq!(finish_paste(Provider::XSel, b"hello".to_vec()), b"hello".to_vec());
}

#[test]
fn xclip_when_xsel_is_missing() {
    let mut f = linux();
    f.xclip = true;
    f.klipper = true;
    f.qdbus = true;
    assert_eq!(select(&f), Ok(Provider::XClip));
    let (cmd, _) = fed(&XClip::copy("x"));
    assert_eq!(cmd, vec!["xclip", "-selection", "c"]);
    let (cmd, quiet) = read(&XClip::paste());
    assert_eq!(cmd, vec!["xclip", "-selection", "c", "-o"]);
    assert!(quiet);
}

#[test]
fn wayland_scenario() {
    let mut f = linux();
    f.wayland_display = true;
    f.wl_copy = true;
    f.xsel = true;
    assert_eq!(select(&f), Ok(Provider::Wayland));
    let (cmd, text) = fed(&Wayland::copy("text with spaces"));
    assert_eq!(cmd, vec!["wl-copy", "-p"]);
    assert_eq!(text, "text with spaces");
    match Wayland::copy("") {
        CopyAction::RunChecked(inv) => assert_eq!(line(&inv), vec!["wl-copy", "-p", "--clear"]),
        _ => panic!("an empty text clears the selection"),
    }
    assert_eq!(read(&Wayland::paste()).0, vec!["wl-paste", "-n", "-p"]);
}

#[test]
fn wayland_needs_wl_copy() {
    let mut f = linux();
    f.wayland_display = true;
    f.xclip = true;
    assert_eq!(select(&f), Ok(Provider::XClip));
}

#[test]
fn wayland_clear_checks_status() {
    assert_eq!(finish_checked(true), Ok(()));
    assert_eq!(finish_checked(false), Err(ClipError::ClearFailed));
}

#[test]
fn wsl_scenario() {
    let mut f = linux();
    f.proc_version = Some(b"Linux version 5.15.90.1-microsoft-standard-WSL2".to_vec());
    f.xclip = true;
    f.wayland_display = true;
    f.wl_copy = true;
    assert_eq!(select(&f), Ok(Provider::Wsl));
    let (cmd, text) = fed(&Wsl::copy("abc"));
    assert_eq!(cmd, vec!["clip.exe"]);
    assert_eq!(text, "abc");
    assert_eq!(
        read(&Wsl::paste()).0,
        vec!["powershell.exe", "-noprofile", "-command", "Get-Clipboard"]
    );
    assert_eq!(finish_paste(Provider::Wsl, b"abc\r\n".to_vec()), b"abc".to_vec());
}

#[test]
fn wsl_capital_marker() {
    let mut f = linux();
    f.proc_version = Some(b"Linux version 4.4.0-19041-Microsoft".to_vec());
    f.xsel = true;
    assert_eq!(select(&f), Ok(Provider::Wsl));
}

#[test]
fn wsl_strips_at_most_one_crlf() {
    assert_eq!(finish_paste(Provider::Wsl, b"a\r\n\r\n".to_vec()), b"a\r\n".to_vec());
    assert_eq!(finish_paste(Provider::Wsl, b"\r\n".to_vec()), Vec::new());
    assert_eq!(finish_paste(Provider::Wsl, b"a".to_vec()), b"a".to_vec());
    assert_eq!(finish_paste(Provider::Wsl, b"\n".to_vec()), b"\n".to_vec());
    assert_eq!(finish_paste(Provider::Wsl, Vec::new()), Vec::new());
    assert_eq!(finish_paste(Provider::Wsl, b"ab\n".to_vec()), b"ab\n".to_vec());
}

#[test]
fn marker_search() {
    assert!(mentions_microsoft(b"microsoft"));
    assert!(mentions_microsoft(b"x MICROSOFT y"));
    assert!(mentions_microsoft(b"MicroSoft"));
    assert!(!mentions_microsoft(b"micro soft"));
    assert!(!mentions_microsoft(b"microsof"));
    assert!(!mentions_microsoft(b""));
    assert!(!wsl(&None));
    assert!(wsl(&Some(b"4.4.0-Microsoft".to_vec())));
}

#[test]
fn macos_scenario() {
    let mut f = linux();
    f.os = HostOs::MacOs;
    f.proc_version = Some(b"microsoft".to_vec());
    assert_eq!(select(&f), Ok(Provider::PbCopy));
    let (cmd, text) = fed(&PbCopy::copy("café"));
    assert_eq!(cmd, vec!["pbcopy", "w"]);
    assert_eq!(text, "café");
    assert_eq!(read(&PbCopy::paste()).0, vec!["pbcopy", "r"]);
    assert_eq!(
        finish_paste(Provider::PbCopy, "café".as_bytes().to_vec()), "café".as_bytes().to_vec()
    );
}

#[test]
fn windows_is_native() {
    let mut f = linux();
    f.os = HostOs::Windows;
    f.xsel = true;
    assert_eq!(select(&f), Ok(Provider::Windows));
    match Windows::copy("hi") {
        CopyAction::SetNative(t) => assert_eq!(t, "hi"),
        _ => panic!("the native API copies"),
    }
    assert!(matches!(Windows::paste(), PasteAction::GetNative));
}

#[test]
fn no_provider_is_sticky() {
    let f = linux();
    assert_eq!(select(&f), Err(ClipError::NoProvider));
    let mut cache = SelectionCache::new();
    assert_eq!(cache.cached(), None);
    assert_eq!(cache.resolve(select(&f)), Err(ClipError::NoProvider));
    let mut later = linux();
    later.xsel = true;
    assert_eq!(cache.cached(), Some(Err(ClipError::NoProvider)));
    assert_eq!(cache.resolve(select(&later)), Err(ClipError::NoProvider));
    assert_eq!(ClipError::NoProvider.message(), "no clipboard provider available");
    assert_eq!(ClipError::ClearFailed.message(), "wl-copy was not successful");
}

#[test]
fn selection_is_frozen() {
    let mut f = linux();
    f.xclip = true;
    let mut cache = SelectionCache::new();
    assert_eq!(cache.resolve(select(&f)), Ok(Provider::XClip));
    let mut g = linux();
    g.xsel = true;
    assert_eq!(cache.resolve(select(&g)), Ok(Provider::XClip));
    assert_eq!(cache.resolve(select(&linux())), Ok(Provider::XClip));
}

#[test]
fn klipper_scenario() {
    let mut f = linux();
    f.klipper = true;
    f.qdbus = true;
    assert_eq!(select(&f), Ok(Provider::Klipper));
    match Klipper::copy("some text") {
        CopyAction::Run(inv) => assert_eq!(
            line(&inv),
            vec!["qdbus", "org.kde.klipper", "/klipper", "setClipboardContents", "some text"]
        ),
        _ => panic!("klipper copies by running qdbus"),
    }
    assert_eq!(
        read(&Klipper::paste()).0,
        vec!["qdbus", "org.kde.klipper", "/klipper", "getClipboardContents"]
    );
    assert_eq!(finish_paste(Provider::Klipper, b"hello\n".to_vec()), b"hello".to_vec());
    assert_eq!(finish_paste(Provider::Klipper, b"\n".to_vec()), Vec::new());
}

#[test]
fn klipper_needs_qdbus_and_newline() {
    let mut f = linux();
    f.klipper = true;
    assert_eq!(select(&f), Err(ClipError::NoProvider));
    assert!(!output_well_formed(Provider::Klipper, &b"hello".to_vec()));
    assert!(!output_well_formed(Provider::Klipper, &Vec::new()));
    assert!(output_well_formed(Provider::Klipper, &b"hello\n".to_vec()));
    assert!(output_well_formed(Provider::XSel, &Vec::new()));
}

#[test]
fn probes_use_which() {
    assert_eq!(line(&presence_command(Tool::WlCopy)), vec!["which", "wl-copy"]);
    assert_eq!(line(&presence_command(Tool::Xsel)), vec!["which", "xsel"]);
    assert_eq!(line(&presence_command(Tool::Xclip)), vec!["which", "xclip"]);
    assert_eq!(line(&presence_command(Tool::Klipper)), vec!["which", "klipper"]);
    assert_eq!(line(&presence_command(Tool::Qdbus)), vec!["which", "qdbus"]);
    assert_eq!(line(&invocation("a", vec!["b", "c"])), vec!["a", "b", "c"]);
}

#[test]
fn facade_forwards_selection() {
    assert!(matches!(copy2(Err(ClipError::NoProvider), "x"), Err(ClipError::NoProvider)));
    assert!(matches!(paste2(Err(ClipError::NoProvider)), Err(ClipError::NoProvider)));
    let (cmd, text) = fed(&copy2(Ok(Provider::XSel), "hello").ok().unwrap());
    assert_eq!(cmd, vec!["xsel", "-b", "-i"]);
    assert_eq!(text, "hello");
    assert_eq!(fed(&copy(Ok(Provider::Wsl), "y")).0, vec!["clip.exe"]);
    assert_eq!(read(&paste2(Ok(Provider::XClip)).ok().unwrap()).0, vec!["xclip", "-selection", "c", "-o"]);
    assert_eq!(read(&paste(Ok(Provider::Wayland))).0, vec!["wl-paste", "-n", "-p"]);
}

#[test]
fn empty_copy_plans_exist_everywhere() {
    for p in [
        Provider::Windows,
        Provider::PbCopy,
        Provider::Wsl,
        Provider::XSel,
        Provider::XClip,
        Provider::Klipper,
    ] {
        match copy_action(p, "") {
            CopyAction::RunChecked(_) => panic!("only Wayland checks the exit status"),
            _ => {}
        }
    }
}

#[test]
fn steps_ask_only_what_is_needed() {
    assert_eq!(next_step(HostOs::Other, true, true, &Vec::new()), Step::Done(Ok(Provider::Wsl)));
    assert_eq!(next_step(HostOs::Windows, false, false, &Vec::new()), Step::Done(Ok(Provider::Windows)));
    assert_eq!(next_step(HostOs::MacOs, true, true, &Vec::new()), Step::Done(Ok(Provider::PbCopy)));
    assert_eq!(next_step(HostOs::Other, false, true, &Vec::new()), Step::Ask(Tool::WlCopy));
    assert_eq!(next_step(HostOs::Other, false, true, &vec![true]), Step::Done(Ok(Provider::Wayland)));
    assert_eq!(next_step(HostOs::Other, false, true, &vec![false]), Step::Ask(Tool::Xsel));
    assert_eq!(next_step(HostOs::Other, false, false, &Vec::new()), Step::Ask(Tool::Xsel));
    assert_eq!(next_step(HostOs::Other, false, false, &vec![true]), Step::Done(Ok(Provider::XSel)));
    assert_eq!(next_step(HostOs::Other, false, false, &vec![false]), Step::Ask(Tool::Xclip));
    assert_eq!(next_step(HostOs::Other, false, false, &vec![false, true]), Step::Done(Ok(Provider::XClip)));
    assert_eq!(next_step(HostOs::Other, false, false, &vec![false, false]), Step::Ask(Tool::Klipper));
    assert_eq!(
        next_step(HostOs::Other, false, false, &vec![false, false, false]),
        Step::Done(Err(ClipError::NoProvider))
    );
    assert_eq!(next_step(HostOs::Other, false, false, &vec![false, false, true]), Step::Ask(Tool::Qdbus));
    assert_eq!(
        next_step(HostOs::Other, false, true, &vec![false, false, false, true, true]),
        Step::Done(Ok(Provider::Klipper))
    );
    assert_eq!(
        next_step(HostOs::Other, false, false, &vec![false, false, true, false]),
        Step::Done(Err(ClipError::NoProvider))
    );
}
