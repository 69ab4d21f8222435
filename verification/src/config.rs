//! Process-wide configuration, handed to the library as a read-only value.

use vstd::prelude::*;

verus! {

/// The settings that callbacks read when they are invoked.
#[derive(Clone, Debug, PartialEq, Eq)]
pub struct Config {
    /// Directory that screen captures are written to.
    pub screen_dir: String,
    /// Hardware address of the television that is woken over the network.
    pub tv_mac_addr: [u8; 6],
}

/// Mathematical model of a [`Config`].
pub ghost struct ConfigView {
    pub screen_dir: Seq<char>,
    pub tv_mac_addr: Seq<u8>,
}

impl View for Config {
    type V = ConfigView;

    open spec fn view(&self) -> ConfigView {
        ConfigView { screen_dir: self.screen_dir@, tv_mac_addr: self.tv_mac_addr@ }
    }
}

} // verus!
