use icon_overlay::icon_overlay::{
    MembershipResult, OverlayError, RpcOutcome, WatchedOverlay, WatchedOverlayFactory,
    ISIOI_ICONFILE,
};
use icon_overlay::notify::notify_message;

fn wide(s: &str) -> Vec<u16> {
    s.encode_utf16().collect()
}

fn connected_provider() -> WatchedOverlay {
    let factory = WatchedOverlayFactory;
    factory.create_instance(true)
}

fn disconnected_provider() -> WatchedOverlay {
    let factory = WatchedOverlayFactory;
    factory.create_instance(false)
}

#[test]
fn in_sync_reply_is_member() {
    let provider = connected_provider();
    assert!(provider.needs_rpc());
    let outcome = Some(RpcOutcome::Reply(String::from("in_sync")));
    assert_eq!(provider.is_member_of("C:\\Drive\\doc.txt", 0, &outcome), MembershipResult::Member);
}

#[test]
fn other_tags_are_not_member() {
    let provider = connected_provider();
    for tag in ["pending", "", "in_sync ", "IN_SYNC", "synced"] {
        let outcome = Some(RpcOutcome::Reply(String::from(tag)));
        assert_eq!(provider.is_member_of("C:\\Drive\\doc.txt", 0, &outcome), MembershipResult::NotMember);
    }
}

#[test]
fn disconnected_instance_is_never_member() {
    let provider = disconnected_provider();
    assert!(!provider.needs_rpc());
    assert_eq!(provider.is_member_of("C:\\Drive\\doc.txt", 0, &None), MembershipResult::NotMember);
    // Even a reply bearing the in-sync tag cannot make a disconnected
    // instance answer Member.
    let outcome = Some(RpcOutcome::Reply(String::from("in_sync")));
    assert_eq!(provider.is_member_of("C:\\Drive\\doc.txt", 0, &outcome), MembershipResult::NotMember);
}

#[test]
fn rpc_failure_is_not_member() {
    let provider = connected_provider();
    let outcome = Some(RpcOutcome::Failure);
    assert_eq!(provider.is_member_of("C:\\Drive\\doc.txt", 0, &outcome), MembershipResult::NotMember);
}

#[test]
fn daemon_scenario_round() {
    // in_sync for the path -> Member; pending for the same path -> NotMember;
    // daemon unreachable at construction -> NotMember for any path.
    let provider = connected_provider();
    let reply = Some(RpcOutcome::Reply(String::from("in_sync")));
    assert_eq!(provider.is_member_of("C:\\Drive\\doc.txt", 0, &reply), MembershipResult::Member);
    let reply = Some(RpcOutcome::Reply(String::from("pending")));
    assert_eq!(provider.is_member_of("C:\\Drive\\doc.txt", 0, &reply), MembershipResult::NotMember);
    let unreachable = disconnected_provider();
    assert!(!unreachable.needs_rpc());
    assert_eq!(unreachable.is_member_of("D:\\other\\file.mp4", 7, &None), MembershipResult::NotMember);
}

#[test]
fn priority_is_fixed_zero() {
    assert_eq!(connected_provider().get_priority(), 0);
    assert_eq!(disconnected_provider().get_priority(), 0);
}

#[test]
fn overlay_info_rejects_small_buffer() {
    let provider = disconnected_provider();
    let module = wide("C:\\dir\\mod.dll");
    // icon path "C:\dir\icon.ico" holds 15 units; 16 are needed with the
    // terminator.
    for cch_max in [-1, 0, 1, 15] {
        let r = provider.get_overlay_info(&module, cch_max);
        assert_eq!(r.err(), Some(OverlayError::InsufficientBuffer));
    }
}

#[test]
fn overlay_info_writes_terminated_path() {
    let provider = connected_provider();
    let module = wide("C:\\dir\\mod.dll");
    let info = provider.get_overlay_info(&module, 16).expect("capacity suffices");
    let mut expected = wide("C:\\dir\\icon.ico");
    expected.push(0);
    assert_eq!(info.icon_file, expected);
    assert_eq!(info.icon_index, 0);
    assert_eq!(info.flags, ISIOI_ICONFILE);
    // A larger buffer changes nothing.
    let info = provider.get_overlay_info(&module, 260).expect("capacity suffices");
    assert_eq!(info.icon_file, expected);
}

#[test]
fn overlay_info_slash_and_bare_module() {
    let provider = connected_provider();
    let info = provider
        .get_overlay_info(&wide("C:/apps/mod.dll"), 260)
        .expect("capacity suffices");
    let mut expected = wide("C:/apps/icon.ico");
    expected.push(0);
    assert_eq!(info.icon_file, expected);
    // A module path without any directory yields the bare icon file name.
    let info = provider.get_overlay_info(&wide("mod.dll"), 260).expect("capacity suffices");
    let mut expected = wide("icon.ico");
    expected.push(0);
    assert_eq!(info.icon_file, expected);
}

#[test]
fn notify_text_is_framed() {
    let text = notify_message("GetOverlayInfo");
    assert_eq!(text, "::GetOverlayInfo::");
    assert_eq!(notify_message(""), "::::");
}
