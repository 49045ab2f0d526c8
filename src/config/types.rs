use vstd::prelude::*;

verus! {

/// The whole configuration: one section per backend.
#[derive(Debug, PartialEq, Eq)]
pub struct Config {
    pub pastebin_com: PastebinComConfig,
}

/// The section of the pastebin.com backend: whether it is wanted, and its
/// developer key.
#[derive(Debug, PartialEq, Eq)]
pub struct PastebinComConfig {
    pub enable: bool,
    pub key: Option<String>,
}

pub ghost struct PastebinComConfigView {
    pub enable: bool,
    pub key: Option<Seq<char>>,
}

pub ghost struct ConfigView {
    pub pastebin_com: PastebinComConfigView,
}

impl View for PastebinComConfig {
    type V = PastebinComConfigView;

    open spec fn view(&self) -> PastebinComConfigView {
        PastebinComConfigView {
            enable: self.enable,
            key: match self.key {
                Some(k) => Some(k@),
                None => None,
            },
        }
    }
}

impl View for Config {
    type V = ConfigView;

    open spec fn view(&self) -> ConfigView {
        ConfigView { pastebin_com: self.pastebin_com@ }
    }
}

/// Disabled, with an empty key.
pub open spec fn default_pastebin_com_config() -> PastebinComConfigView {
    PastebinComConfigView { enable: false, key: Some(Seq::empty()) }
}

pub open spec fn default_config() -> ConfigView {
    ConfigView { pastebin_com: default_pastebin_com_config() }
}

impl Default for PastebinComConfig {
    fn default() -> (r: Self)
        ensures
            r@ == default_pastebin_com_config(),
    {
        PastebinComConfig { enable: false, key: Some(String::new()) }
    }
}

impl Default for Config {
    fn default() -> (r: Self)
        ensures
            r@ == default_config(),
    {
        Config { pastebin_com: PastebinComConfig::default() }
    }
}

} // verus!
