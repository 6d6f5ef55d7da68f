use weixin_ui::button::SettingsButton;

#[test]
fn builder_sets_label_and_handler() {
    let b: SettingsButton<fn() -> u32> = SettingsButton::new("shortcut-reset");
    assert_eq!(b.id, "shortcut-reset");
    assert!(b.label.is_none());
    assert!(b.on_click.is_none());
    fn seven() -> u32 {
        7
    }
    let b = b.label("恢复默认设置").on_click(seven as fn() -> u32);
    assert_eq!(b.id, "shortcut-reset");
    assert_eq!(b.label.as_deref(), Some("恢复默认设置"));
    assert_eq!((b.on_click.unwrap())(), 7);
}
