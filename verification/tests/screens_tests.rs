use ore_app::screens::{
    config_from_inputs, is_mining_screen_with_some_wallet, nav_item_highlighted, nav_item_target, screen_after,
    screen_without_wallet, starting_screen, AppConfig, AppScreenState, ConfigInputError, NavItemScreen, ScreenEvent,
};

#[test]
fn starting_screen_cases() {
    assert_eq!(starting_screen(false, false), AppScreenState::SettingsConfig);
    assert_eq!(starting_screen(false, true), AppScreenState::SettingsConfig);
    assert_eq!(starting_screen(true, false), AppScreenState::WalletSetup);
    assert_eq!(starting_screen(true, true), AppScreenState::Unlock);
}

#[test]
fn screen_without_wallet_cases() {
    assert_eq!(screen_without_wallet(true), AppScreenState::Unlock);
    assert_eq!(screen_without_wallet(false), AppScreenState::WalletSetup);
}

#[test]
fn nav_items_need_a_wallet() {
    assert_eq!(nav_item_target(NavItemScreen::Mining, true), Some(AppScreenState::Mining));
    assert_eq!(nav_item_target(NavItemScreen::SettingsWallet, true), Some(AppScreenState::SettingsWallet));
    assert_eq!(nav_item_target(NavItemScreen::Dashboard, false), None);
}

#[test]
fn nav_item_highlight_only_selected() {
    assert!(nav_item_highlighted(NavItemScreen::Dashboard, NavItemScreen::Dashboard));
    assert!(!nav_item_highlighted(NavItemScreen::Mining, NavItemScreen::Dashboard));
}

#[test]
fn mining_systems_need_screen_and_wallet() {
    assert!(is_mining_screen_with_some_wallet(AppScreenState::Mining, true));
    assert!(!is_mining_screen_with_some_wallet(AppScreenState::Mining, false));
    assert!(!is_mining_screen_with_some_wallet(AppScreenState::Dashboard, true));
}

#[test]
fn default_config_values() {
    let c = AppConfig::default();
    assert_eq!(c.rpc_url, "https://floral-dawn-pallet.solana-devnet.quiknode.pro/8b38be5427b44d3b42dc67c891dea71a56cd3a8c");
    assert_eq!(c.ws_url, "wss://floral-dawn-pallet.solana-devnet.quiknode.pro/8b38be5427b44d3b42dc67c891dea71a56cd3a8c");
    assert!(c.is_devnet);
    assert_eq!((c.threads, c.ui_fetch_interval, c.tx_send_interval, c.tx_sigs_check_interval), (1, 1000, 3000, 1000));
}

#[test]
fn config_from_inputs_reads_numbers() {
    let c = config_from_inputs("https://rpc.example".to_string(), "4", "2000", "+3000").ok().unwrap();
    assert_eq!(c.rpc_url, "https://rpc.example");
    assert_eq!((c.threads, c.ui_fetch_interval, c.tx_send_interval), (4, 2000, 3000));
    assert_eq!(c.tx_sigs_check_interval, 1000);
    assert!(c.is_devnet);
    assert_eq!(c.ws_url, AppConfig::default().ws_url);
}

#[test]
fn config_from_inputs_names_first_bad_field() {
    assert_eq!(config_from_inputs("u".to_string(), "x", "y", "z").err(), Some(ConfigInputError::Threads));
    assert_eq!(config_from_inputs("u".to_string(), "1", "", "z").err(), Some(ConfigInputError::FetchInterval));
    assert_eq!(config_from_inputs("u".to_string(), "1", "2", "-3").err(), Some(ConfigInputError::SendInterval));
}

#[test]
fn first_run_walks_the_setup() {
    let mut screen = starting_screen(false, false);
    assert_eq!(screen, AppScreenState::SettingsConfig);
    screen = screen_after(ScreenEvent::ConfigSaved { wallet_saved: false });
    assert_eq!(screen, AppScreenState::WalletSetup);
    screen = screen_after(ScreenEvent::WalletSaved);
    assert_eq!(screen, AppScreenState::Unlock);
    screen = screen_after(ScreenEvent::Unlocked);
    assert_eq!(screen, AppScreenState::Mining);
    screen = screen_after(ScreenEvent::Locked);
    assert_eq!(screen, AppScreenState::Unlock);
}

#[test]
fn saving_settings_matches_a_restart() {
    for wallet_saved in [false, true] {
        assert_eq!(screen_after(ScreenEvent::ConfigSaved { wallet_saved }), starting_screen(true, wallet_saved));
    }
    assert_eq!(screen_after(ScreenEvent::ConfigSaved { wallet_saved: true }), AppScreenState::Unlock);
}
