use vstd::prelude::*;
use crate::text::{parse_u64, u64_text_value};

verus! {

/// The screens of the desktop app.
#[derive(Clone, Copy, PartialEq, Eq, Debug, Hash, Structural)]
pub enum AppScreenState {
    WalletSetup,
    Unlock,
    Dashboard,
    Mining,
    SettingsConfig,
    SettingsWallet,
    SettingsGeneral,
}

/// The entries of the navigation bar.
#[derive(Clone, Copy, PartialEq, Eq, Debug, Hash, Structural)]
pub enum NavItemScreen {
    Dashboard,
    Mining,
    SettingsConfig,
    SettingsWallet,
    SettingsGeneral,
}

/// The screen the app opens on: the configuration screen until a saved
/// configuration has been read, then the wallet setup, or the unlock screen
/// once a wallet has been saved.
pub open spec fn spec_starting_screen(config_loaded: bool, wallet_saved: bool) -> AppScreenState {
    if !config_loaded {
        AppScreenState::SettingsConfig
    } else if wallet_saved {
        AppScreenState::Unlock
    } else {
        AppScreenState::WalletSetup
    }
}

/// Chooses the screen to open on, from whether `config.toml` was read and
/// parsed and whether a saved wallet file exists.
pub fn starting_screen(config_loaded: bool, wallet_saved: bool) -> (s: AppScreenState)
    ensures
        s == spec_starting_screen(config_loaded, wallet_saved),
{
    if !config_loaded {
        AppScreenState::SettingsConfig
    } else if wallet_saved {
        AppScreenState::Unlock
    } else {
        AppScreenState::WalletSetup
    }
}

/// Where the mining screen sends a user who has no unlocked wallet: to unlock
/// a saved wallet, or to set one up.
pub fn screen_without_wallet(wallet_saved: bool) -> (s: AppScreenState)
    ensures
        s == (if wallet_saved { AppScreenState::Unlock } else { AppScreenState::WalletSetup }),
{
    if wallet_saved {
        AppScreenState::Unlock
    } else {
        AppScreenState::WalletSetup
    }
}

/// What moves the app from one setup screen to the next.
#[derive(Clone, Copy, PartialEq, Eq, Debug, Structural)]
pub enum ScreenEvent {
    /// The settings were written to `config.toml`; `wallet_saved` tells
    /// whether an encrypted wallet file already exists.
    ConfigSaved { wallet_saved: bool },
    /// A generated or imported wallet was encrypted and saved.
    WalletSaved,
    /// The saved wallet was decrypted with the typed password.
    Unlocked,
    /// The wallet was locked.
    Locked,
}

/// The screen each setup event leads to: after the settings, the wallet
/// setup (or the unlock screen when a wallet is already saved); after saving
/// a wallet or locking it, the unlock screen; after unlocking, mining.
pub open spec fn spec_screen_after(event: ScreenEvent) -> AppScreenState {
    match event {
        ScreenEvent::ConfigSaved { wallet_saved } => if wallet_saved {
            AppScreenState::Unlock
        } else {
            AppScreenState::WalletSetup
        },
        ScreenEvent::WalletSaved => AppScreenState::Unlock,
        ScreenEvent::Unlocked => AppScreenState::Mining,
        ScreenEvent::Locked => AppScreenState::Unlock,
    }
}

/// Chooses the screen a setup event switches to.
pub fn screen_after(event: ScreenEvent) -> (s: AppScreenState)
    ensures
        s == spec_screen_after(event),
{
    match event {
        ScreenEvent::ConfigSaved { wallet_saved } => screen_without_wallet(wallet_saved),
        ScreenEvent::WalletSaved => AppScreenState::Unlock,
        ScreenEvent::Unlocked => AppScreenState::Mining,
        ScreenEvent::Locked => AppScreenState::Unlock,
    }
}

/// Saving the settings leads to the screen that a restart would open on once
/// the settings are on disk: the wallet setup, or the unlock screen when a
/// wallet is saved; and with a wallet saved, that is also where locking leads.
pub proof fn law_config_save_matches_restart(wallet_saved: bool)
    ensures
        spec_screen_after(ScreenEvent::ConfigSaved { wallet_saved }) == spec_starting_screen(true, wallet_saved),
        wallet_saved ==> spec_starting_screen(true, wallet_saved) == spec_screen_after(ScreenEvent::Locked),
{
}

/// The screen that a navigation entry opens.
pub open spec fn nav_item_screen(item: NavItemScreen) -> AppScreenState {
    match item {
        NavItemScreen::Dashboard => AppScreenState::Dashboard,
        NavItemScreen::Mining => AppScreenState::Mining,
        NavItemScreen::SettingsConfig => AppScreenState::SettingsConfig,
        NavItemScreen::SettingsWallet => AppScreenState::SettingsWallet,
        NavItemScreen::SettingsGeneral => AppScreenState::SettingsGeneral,
    }
}

/// The screen a click on a navigation entry switches to: its own screen
/// while a wallet is unlocked, none otherwise.
pub fn nav_item_target(item: NavItemScreen, wallet_unlocked: bool) -> (s: Option<AppScreenState>)
    ensures
        s == (if wallet_unlocked { Some(nav_item_screen(item)) } else { None }),
{
    if !wallet_unlocked {
        return None;
    }
    match item {
        NavItemScreen::Dashboard => Some(AppScreenState::Dashboard),
        NavItemScreen::Mining => Some(AppScreenState::Mining),
        NavItemScreen::SettingsConfig => Some(AppScreenState::SettingsConfig),
        NavItemScreen::SettingsWallet => Some(AppScreenState::SettingsWallet),
        NavItemScreen::SettingsGeneral => Some(AppScreenState::SettingsGeneral),
    }
}

/// Whether a navigation entry is drawn as selected while `shown` is the open
/// screen's entry.
pub fn nav_item_highlighted(item: NavItemScreen, shown: NavItemScreen) -> (b: bool)
    ensures
        b == (item == shown),
{
    item == shown
}

/// Whether the mining-screen systems run: the mining screen is open and a
/// wallet is unlocked.
pub fn is_mining_screen_with_some_wallet(screen: AppScreenState, wallet_unlocked: bool) -> (b: bool)
    ensures
        b == (screen == AppScreenState::Mining && wallet_unlocked),
{
    screen == AppScreenState::Mining && wallet_unlocked
}

/// The settings the app keeps in `config.toml`.
pub struct AppConfig {
    pub rpc_url: String,
    pub ws_url: String,
    pub is_devnet: bool,
    pub threads: u64,
    pub ui_fetch_interval: u64,
    pub tx_send_interval: u64,
    pub tx_sigs_check_interval: u64,
}

/// The RPC endpoint of a fresh configuration.
pub open spec fn default_rpc_url() -> Seq<char> {
    "https://floral-dawn-pallet.solana-devnet.quiknode.pro/8b38be5427b44d3b42dc67c891dea71a56cd3a8c"@
}

/// The websocket endpoint of a fresh configuration.
pub open spec fn default_ws_url() -> Seq<char> {
    "wss://floral-dawn-pallet.solana-devnet.quiknode.pro/8b38be5427b44d3b42dc67c891dea71a56cd3a8c"@
}

/// A fresh configuration: the devnet endpoints, one mining thread, a UI
/// refresh every second, a transaction resend every three seconds and a
/// signature check every second.
pub open spec fn is_default_config(c: AppConfig) -> bool {
    &&& c.rpc_url@ == default_rpc_url()
    &&& c.ws_url@ == default_ws_url()
    &&& c.is_devnet
    &&& c.threads == 1
    &&& c.ui_fetch_interval == 1000
    &&& c.tx_send_interval == 3000
    &&& c.tx_sigs_check_interval == 1000
}

impl Default for AppConfig {
    fn default() -> (c: Self)
        ensures
            is_default_config(c),
    {
        AppConfig {
            rpc_url: String::from_str(
                "https://floral-dawn-pallet.solana-devnet.quiknode.pro/8b38be5427b44d3b42dc67c891dea71a56cd3a8c",
            ),
            ws_url: String::from_str(
                "wss://floral-dawn-pallet.solana-devnet.quiknode.pro/8b38be5427b44d3b42dc67c891dea71a56cd3a8c",
            ),
            is_devnet: true,
            threads: 1,
            ui_fetch_interval: 1000,
            tx_send_interval: 3000,
            tx_sigs_check_interval: 1000,
        }
    }
}

/// The settings field whose text is not a number.
#[derive(Clone, Copy, PartialEq, Eq, Debug, Structural)]
pub enum ConfigInputError {
    Threads,
    FetchInterval,
    SendInterval,
}

/// What the settings screen saves for its four text fields: the RPC URL as
/// typed and the three numbers read with `str::parse::<u64>`, on top of the
/// fresh configuration (devnet, its websocket endpoint and signature-check
/// interval); or the first field, in screen order, that is not a number.
pub open spec fn config_inputs_result(
    rpc_url: Seq<char>,
    threads: Seq<char>,
    fetch_interval: Seq<char>,
    send_interval: Seq<char>,
    res: Result<AppConfig, ConfigInputError>,
) -> bool {
    if u64_text_value(threads) is None {
        res == Err::<AppConfig, ConfigInputError>(ConfigInputError::Threads)
    } else if u64_text_value(fetch_interval) is None {
        res == Err::<AppConfig, ConfigInputError>(ConfigInputError::FetchInterval)
    } else if u64_text_value(send_interval) is None {
        res == Err::<AppConfig, ConfigInputError>(ConfigInputError::SendInterval)
    } else {
        res matches Ok(c) && {
            &&& c.rpc_url@ == rpc_url
            &&& c.ws_url@ == default_ws_url()
            &&& c.is_devnet
            &&& c.threads == u64_text_value(threads)->0
            &&& c.ui_fetch_interval == u64_text_value(fetch_interval)->0
            &&& c.tx_send_interval == u64_text_value(send_interval)->0
            &&& c.tx_sigs_check_interval == 1000
        }
    }
}

/// Builds the configuration that the settings screen saves from its text
/// fields.
pub fn config_from_inputs(
    rpc_url: String,
    threads: &str,
    fetch_interval: &str,
    send_interval: &str,
) -> (res: Result<AppConfig, ConfigInputError>)
    ensures
        config_inputs_result(rpc_url@, threads@, fetch_interval@, send_interval@, res),
{
    let threads = match parse_u64(threads) {
        Some(v) => v,
        None => return Err(ConfigInputError::Threads),
    };
    let ui_fetch_interval = match parse_u64(fetch_interval) {
        Some(v) => v,
        None => return Err(ConfigInputError::FetchInterval),
    };
    let tx_send_interval = match parse_u64(send_interval) {
        Some(v) => v,
        None => return Err(ConfigInputError::SendInterval),
    };
    let defaults = AppConfig::default();
    Ok(
        AppConfig {
            rpc_url,
            is_devnet: true,
            threads,
            ui_fetch_interval,
            tx_send_interval,
            ..defaults
        },
    )
}

} // verus!
