//! The configuration of one machine.
use vstd::prelude::*;
use crate::protocol::RuntimeConfigUpdate;

verus! {

/// The settings of one machine.
#[derive(Debug, Clone, PartialEq, Eq)]
pub struct Config {
    pub device_id: String,
    pub device_name: String,
    pub tcp_port: u16,
    pub udp_port: u16,
    pub peer_ip: String,
    pub peer_tcp_port: u16,
    pub peer_udp_port: u16,
    pub switch_edge: String,
    pub clipboard_enabled: bool,
    pub drops_enabled: bool,
    pub drops_folder: String,
    pub hotkey_switch: String,
    pub hotkey_disconnect: String,
    pub autostart_enabled: bool,
}

/// The TCP port a fresh configuration listens on and talks to.
pub const DEFAULT_TCP_PORT: u16 = 45455;
/// The UDP port a fresh configuration listens on and talks to.
pub const DEFAULT_UDP_PORT: u16 = 45456;

/// Whether `c` is a lowercase hexadecimal digit.
pub open spec fn is_lower_hex_digit(c: char) -> bool {
    (0x30 <= (c as u32) <= 0x39) || (0x61 <= (c as u32) <= 0x66)
}

/// Whether `id` is a random (version 4, RFC 4122 variant) UUID written in
/// the hyphenated lowercase form: 36 characters, hyphens at positions 8, 13,
/// 18 and 23, lowercase hex digits elsewhere, the version digit `4` at
/// position 14 and a variant digit among `8`, `9`, `a`, `b` at position 19.
pub open spec fn is_v4_id(id: Seq<char>) -> bool {
    &&& id.len() == 36
    &&& forall|i: int|
        0 <= i < 36 ==> if i == 8 || i == 13 || i == 18 || i == 23 {
            #[trigger] id[i] == '-'
        } else {
            is_lower_hex_digit(id[i])
        }
    &&& id[14] == '4'
    &&& (id[19] == '8' || id[19] == '9' || id[19] == 'a' || id[19] == 'b')
}

/// Calls `uuid::Uuid::new_v4` and formats the result with `Display`.
/// The value is random; what is stated is the shape that every outcome
/// has: `new_v4` masks in the version 4 and the RFC 4122 variant bits, and
/// `Display` writes the hyphenated lowercase form. `new_v4` panics if the
/// operating system's random source fails, which no argument can rule out.
#[verifier::external_body]
pub(crate) fn new_v4_uuid() -> (r: String)
    ensures
        is_v4_id(r@),
{
    uuid::Uuid::new_v4().to_string()
}

/// The name a machine goes by when the environment gives none.
pub fn hostname_fallback(computer_name: Option<String>) -> (r: String)
    ensures
        match computer_name {
            Some(n) => r == n,
            None => r@ == "Windows-PC"@,
        },
{
    match computer_name {
        Some(n) => n,
        None => "Windows-PC".to_string(),
    }
}

impl Config {
    /// Whether this configuration holds the default settings, whatever its
    /// device id and name.
    pub open spec fn has_default_settings(&self) -> bool {
        &&& self.tcp_port == DEFAULT_TCP_PORT
        &&& self.udp_port == DEFAULT_UDP_PORT
        &&& self.peer_ip@ == "127.0.0.1"@
        &&& self.peer_tcp_port == DEFAULT_TCP_PORT
        &&& self.peer_udp_port == DEFAULT_UDP_PORT
        &&& self.switch_edge@ == "right"@
        &&& self.clipboard_enabled
        &&& self.drops_enabled
        &&& self.drops_folder@ == "WinFlow Drops"@
        &&& self.hotkey_switch@ == "Ctrl+Alt+Right"@
        &&& self.hotkey_disconnect@ == "Shift+LeftAlt"@
        &&& !self.autostart_enabled
    }

    /// A fresh configuration for the machine called `device_name`, with a
    /// new random device id and the default settings.
    pub fn with_defaults(device_name: String) -> (r: Config)
        ensures
            r.has_default_settings(),
            r.device_name == device_name,
            is_v4_id(r.device_id@),
    {
        Config {
            device_id: new_v4_uuid(),
            device_name,
            tcp_port: DEFAULT_TCP_PORT,
            udp_port: DEFAULT_UDP_PORT,
            peer_ip: "127.0.0.1".to_string(),
            peer_tcp_port: DEFAULT_TCP_PORT,
            peer_udp_port: DEFAULT_UDP_PORT,
            switch_edge: "right".to_string(),
            clipboard_enabled: true,
            drops_enabled: true,
            drops_folder: "WinFlow Drops".to_string(),
            hotkey_switch: "Ctrl+Alt+Right".to_string(),
            hotkey_disconnect: "Shift+LeftAlt".to_string(),
            autostart_enabled: false,
        }
    }

    /// Takes over the runtime settings of `update`; every other setting stays.
    pub fn apply_update(&mut self, update: RuntimeConfigUpdate)
        ensures
            final(self).switch_edge == update.switch_edge,
            final(self).clipboard_enabled == update.clipboard_enabled,
            final(self).hotkey_switch == update.hotkey_switch,
            final(self).hotkey_disconnect == update.hotkey_disconnect,
            final(self).device_id == old(self).device_id,
            final(self).device_name == old(self).device_name,
            final(self).tcp_port == old(self).tcp_port,
            final(self).udp_port == old(self).udp_port,
            final(self).peer_ip == old(self).peer_ip,
            final(self).peer_tcp_port == old(self).peer_tcp_port,
            final(self).peer_udp_port == old(self).peer_udp_port,
            final(self).drops_enabled == old(self).drops_enabled,
            final(self).drops_folder == old(self).drops_folder,
            final(self).autostart_enabled == old(self).autostart_enabled,
    {
        self.switch_edge = update.switch_edge;
        self.clipboard_enabled = update.clipboard_enabled;
        self.hotkey_switch = update.hotkey_switch;
        self.hotkey_disconnect = update.hotkey_disconnect;
    }
}

} // verus!
