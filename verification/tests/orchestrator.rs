use power_menu::backend::BackendKind;
use power_menu::config::{
    CustomPowerMenuConfig, PowerMenuConfig, SystemdPowerMenuConfig, UnixPowerMenuConfig,
};
use power_menu::menu::PowerMenu;

#[test]
fn default_config_is_service_manager() {
    let config = PowerMenuConfig::default();
    assert!(matches!(config, PowerMenuConfig::Systemd(_)));
}

#[test]
fn init_selects_systemd() {
    let menu = PowerMenu::init(PowerMenuConfig::Systemd(SystemdPowerMenuConfig::default()));
    assert!(matches!(menu, PowerMenu::Systemd(_)));
    assert_eq!(menu.widget().kind(), BackendKind::Systemd);
}

#[test]
fn init_selects_unix() {
    let menu = PowerMenu::init(PowerMenuConfig::Unix(UnixPowerMenuConfig::default()));
    assert!(matches!(menu, PowerMenu::Unix(_)));
    assert_eq!(menu.widget().kind(), BackendKind::Unix);
}

#[test]
fn init_selects_custom() {
    let menu = PowerMenu::init(PowerMenuConfig::Custom(CustomPowerMenuConfig::default()));
    assert!(matches!(menu, PowerMenu::Custom(_)));
    assert_eq!(menu.widget().kind(), BackendKind::Custom);
}

#[test]
fn widget_is_displayable_for_each_case() {
    let systemd = PowerMenu::init(PowerMenuConfig::Systemd(SystemdPowerMenuConfig::default()));
    let unix = PowerMenu::init(PowerMenuConfig::Unix(UnixPowerMenuConfig::default()));
    let custom = PowerMenu::init(PowerMenuConfig::Custom(CustomPowerMenuConfig {
        command_list: vec![String::from("poweroff")],
    }));
    assert_eq!(systemd.widget().kind(), BackendKind::Systemd);
    assert_eq!(systemd.widget().rows().len(), 0);
    assert_eq!(unix.widget().kind(), BackendKind::Unix);
    assert_eq!(unix.widget().rows().len(), 0);
    assert_eq!(custom.widget().kind(), BackendKind::Custom);
    assert_eq!(custom.widget().rows().len(), 1);
}

#[test]
fn custom_menu_lists_commands_in_order() {
    let config = PowerMenuConfig::Custom(CustomPowerMenuConfig {
        command_list: vec![String::from("shutdown now"), String::from("reboot")],
    });
    let menu = PowerMenu::init(config);
    assert!(matches!(menu, PowerMenu::Custom(_)));
    let widget = menu.widget();
    assert_eq!(widget.kind(), BackendKind::Custom);
    let rows = widget.rows();
    assert_eq!(rows.len(), 2);
    assert_eq!(rows[0], "shutdown now");
    assert_eq!(rows[1], "reboot");
}

#[test]
fn service_manager_default_end_to_end() {
    let menu = PowerMenu::init(PowerMenuConfig::default());
    assert!(matches!(menu, PowerMenu::Systemd(_)));
    let widget = menu.widget();
    assert_eq!(widget.kind(), BackendKind::Systemd);
    assert_eq!(widget.kind().name(), "systemd");
    assert_eq!(widget.rows().len(), 0);
}

#[test]
fn shutdown_releases_the_held_backend() {
    let menu = PowerMenu::init(PowerMenuConfig::Custom(CustomPowerMenuConfig::default()));
    let stopped = menu.shutdown();
    assert_eq!(stopped, BackendKind::Custom);
}

#[test]
fn backend_kind_names() {
    assert_eq!(BackendKind::Systemd.name(), "systemd");
    assert_eq!(BackendKind::Unix.name(), "unix");
    assert_eq!(BackendKind::Custom.name(), "custom");
}
