use confession_bot::button::ButtonCustomId;

#[test]
fn custom_id_texts() {
    assert_eq!(ButtonCustomId::ApproveConfession(1, 2).to_string(), "approve_confession:1:2");
    assert_eq!(
        ButtonCustomId::ApproveConfession(123456789012345678, 987654321098765432).to_string(),
        "approve_confession:123456789012345678:987654321098765432"
    );
    assert_eq!(ButtonCustomId::DenyConfession().to_string(), "deny_confession");
}

#[test]
fn custom_id_roundtrip() {
    let buttons = [
        ButtonCustomId::ApproveConfession(0, 0),
        ButtonCustomId::ApproveConfession(42, 7),
        ButtonCustomId::ApproveConfession(u64::MAX, u64::MAX),
        ButtonCustomId::DenyConfession(),
    ];
    for b in buttons {
        assert_eq!(ButtonCustomId::from_string(&b.to_string()), Some(b));
    }
}

#[test]
fn custom_id_rejects_other_texts() {
    for s in [
        "",
        "deny",
        "deny_confession ",
        "approve_confession:",
        "approve_confession:1",
        "approve_confession:1:",
        "approve_confession::2",
        "approve_confession:01:2",
        "approve_confession:1:2:3",
        "approve_confession:1:x",
        "approve_confession:18446744073709551616:1",
        "Approve_confession:1:2",
    ] {
        assert_eq!(ButtonCustomId::from_string(s), None, "{}", s);
    }
}
