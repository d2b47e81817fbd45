//! The profile of one proxy endpoint.

use vstd::prelude::*;
use vstd::string::*;
use crate::text::{decimal, decimal_string};

verus! {

/// One proxy endpoint profile. Every field is text; `delay` holds the last
/// measured latency as it is shown to the user.
#[derive(Debug, Clone)]
pub struct SsrConfig {
    /// Remote host.
    pub remote_addr: String,
    /// Remote port.
    pub remote_port: String,
    /// Local bind address.
    pub local_addr: String,
    /// Local bind port.
    pub local_port: String,
    /// Idle timeout in seconds.
    pub timeout: String,
    /// Encryption method identifier.
    pub method: String,
    /// Pre-shared password.
    pub password: String,
    /// Obfuscation-protocol identifier.
    pub protocol: String,
    /// Obfuscation-protocol parameter.
    pub protoparam: String,
    /// Obfuscator identifier.
    pub obfs: String,
    /// Obfuscator parameter.
    pub obfsparam: String,
    /// Display label.
    pub remarks: String,
    /// Label of the owning group.
    pub group: String,
    /// Last measured latency, as displayed.
    pub delay: String,
}

/// The mathematical content of an [`SsrConfig`]: each field as a sequence
/// of characters.
pub struct SsrConfigView {
    pub remote_addr: Seq<char>,
    pub remote_port: Seq<char>,
    pub local_addr: Seq<char>,
    pub local_port: Seq<char>,
    pub timeout: Seq<char>,
    pub method: Seq<char>,
    pub password: Seq<char>,
    pub protocol: Seq<char>,
    pub protoparam: Seq<char>,
    pub obfs: Seq<char>,
    pub obfsparam: Seq<char>,
    pub remarks: Seq<char>,
    pub group: Seq<char>,
    pub delay: Seq<char>,
}

impl View for SsrConfig {
    type V = SsrConfigView;

    open spec fn view(&self) -> SsrConfigView {
        SsrConfigView {
            remote_addr: self.remote_addr@,
            remote_port: self.remote_port@,
            local_addr: self.local_addr@,
            local_port: self.local_port@,
            timeout: self.timeout@,
            method: self.method@,
            password: self.password@,
            protocol: self.protocol@,
            protoparam: self.protoparam@,
            obfs: self.obfs@,
            obfsparam: self.obfsparam@,
            remarks: self.remarks@,
            group: self.group@,
            delay: self.delay@,
        }
    }
}

/// The views of a sequence of profiles, in order.
pub open spec fn profile_views(profiles: Seq<SsrConfig>) -> Seq<SsrConfigView> {
    profiles.map_values(|p: SsrConfig| p@)
}

/// The local bind address of every profile unless set otherwise: loopback.
pub open spec fn default_local_addr() -> Seq<char> {
    "127.0.0.1"@
}

/// The local bind port of every profile unless set otherwise.
pub open spec fn default_local_port() -> Seq<char> {
    "1080"@
}

/// The idle timeout of every profile unless set otherwise.
pub open spec fn default_timeout() -> Seq<char> {
    "300"@
}

/// The display label of a profile that names none ("unnamed").
pub open spec fn default_remarks() -> Seq<char> {
    "未命名"@
}

/// The group label of a profile that names none ("default").
pub open spec fn default_group() -> Seq<char> {
    "默认"@
}

/// The latency shown for `ms` milliseconds: the number in decimal, a space
/// and `ms`.
pub open spec fn delay_text(ms: u16) -> Seq<char> {
    decimal(ms as nat) + " ms"@
}

/// The latency shown for an endpoint that could not be reached ("timed
/// out").
pub open spec fn unreachable_text() -> Seq<char> {
    "超时"@
}

/// The latency shown for the outcome of a probe: the milliseconds it
/// measured, or the mark of an endpoint that could not be reached.
pub open spec fn latency_text(latency: Option<u16>) -> Seq<char> {
    match latency {
        Some(ms) => delay_text(ms),
        None => unreachable_text(),
    }
}

/// The profile with nothing filled in: the fixed local defaults, the default
/// labels, a latency of zero and every other field empty.
pub open spec fn default_view() -> SsrConfigView {
    SsrConfigView {
        remote_addr: Seq::empty(),
        remote_port: Seq::empty(),
        local_addr: default_local_addr(),
        local_port: default_local_port(),
        timeout: default_timeout(),
        method: Seq::empty(),
        password: Seq::empty(),
        protocol: Seq::empty(),
        protoparam: Seq::empty(),
        obfs: Seq::empty(),
        obfsparam: Seq::empty(),
        remarks: default_remarks(),
        group: default_group(),
        delay: delay_text(0),
    }
}

/// Renders a latency of `ms` milliseconds for display.
pub fn delay_label(ms: u16) -> (s: String)
    ensures
        s@ == delay_text(ms),
{
    decimal_string(ms).concat(" ms")
}

/// Renders the outcome of a probe for display.
pub fn latency_label(latency: Option<u16>) -> (s: String)
    ensures
        s@ == latency_text(latency),
{
    match latency {
        Some(ms) => delay_label(ms),
        None => String::from_str("超时"),
    }
}

impl Default for SsrConfig {
    fn default() -> (r: Self)
        ensures
            r@ == default_view(),
    {
        SsrConfig {
            remote_addr: String::new(),
            remote_port: String::new(),
            local_addr: String::from_str("127.0.0.1"),
            local_port: String::from_str("1080"),
            timeout: String::from_str("300"),
            method: String::new(),
            password: String::new(),
            protocol: String::new(),
            protoparam: String::new(),
            obfs: String::new(),
            obfsparam: String::new(),
            remarks: String::from_str("未命名"),
            group: String::from_str("默认"),
            delay: delay_label(0),
        }
    }
}

impl SsrConfig {
    /// Sets the remote host.
    pub fn set_remote_addr(self, remote_addr: &str) -> (r: Self)
        ensures
            r@ == (SsrConfigView { remote_addr: remote_addr@, ..self@ }),
    {
        let mut config = self;
        config.remote_addr = remote_addr.to_owned();
        config
    }

    /// Sets the remote port.
    pub fn set_remote_port(self, remote_port: &str) -> (r: Self)
        ensures
            r@ == (SsrConfigView { remote_port: remote_port@, ..self@ }),
    {
        let mut config = self;
        config.remote_port = remote_port.to_owned();
        config
    }

    /// Sets the local bind address.
    pub fn set_local_addr(self, local_addr: &str) -> (r: Self)
        ensures
            r@ == (SsrConfigView { local_addr: local_addr@, ..self@ }),
    {
        let mut config = self;
        config.local_addr = local_addr.to_owned();
        config
    }

    /// Sets the local bind port.
    pub fn set_local_port(self, local_port: &str) -> (r: Self)
        ensures
            r@ == (SsrConfigView { local_port: local_port@, ..self@ }),
    {
        let mut config = self;
        config.local_port = local_port.to_owned();
        config
    }

    /// Sets the idle timeout.
    pub fn set_timeout(self, timeout: &str) -> (r: Self)
        ensures
            r@ == (SsrConfigView { timeout: timeout@, ..self@ }),
    {
        let mut config = self;
        config.timeout = timeout.to_owned();
        config
    }

    /// Sets the encryption method.
    pub fn set_method(self, method: &str) -> (r: Self)
        ensures
            r@ == (SsrConfigView { method: method@, ..self@ }),
    {
        let mut config = self;
        config.method = method.to_owned();
        config
    }

    /// Sets the password.
    pub fn set_password(self, password: &str) -> (r: Self)
        ensures
            r@ == (SsrConfigView { password: password@, ..self@ }),
    {
        let mut config = self;
        config.password = password.to_owned();
        config
    }

    /// Sets the obfuscation protocol.
    pub fn set_protocol(self, protocol: &str) -> (r: Self)
        ensures
            r@ == (SsrConfigView { protocol: protocol@, ..self@ }),
    {
        let mut config = self;
        config.protocol = protocol.to_owned();
        config
    }

    /// Sets the parameter of the obfuscation protocol.
    pub fn set_protoparam(self, protoparam: &str) -> (r: Self)
        ensures
            r@ == (SsrConfigView { protoparam: protoparam@, ..self@ }),
    {
        let mut config = self;
        config.protoparam = protoparam.to_owned();
        config
    }

    /// Sets the obfuscator.
    pub fn set_obfs(self, obfs: &str) -> (r: Self)
        ensures
            r@ == (SsrConfigView { obfs: obfs@, ..self@ }),
    {
        let mut config = self;
        config.obfs = obfs.to_owned();
        config
    }

    /// Sets the parameter of the obfuscator.
    pub fn set_obfsparam(self, obfsparam: &str) -> (r: Self)
        ensures
            r@ == (SsrConfigView { obfsparam: obfsparam@, ..self@ }),
    {
        let mut config = self;
        config.obfsparam = obfsparam.to_owned();
        config
    }

    /// Sets the display label.
    pub fn set_remarks(self, remarks: &str) -> (r: Self)
        ensures
            r@ == (SsrConfigView { remarks: remarks@, ..self@ }),
    {
        let mut config = self;
        config.remarks = remarks.to_owned();
        config
    }

    /// Sets the label of the owning group.
    pub fn set_group(self, group: &str) -> (r: Self)
        ensures
            r@ == (SsrConfigView { group: group@, ..self@ }),
    {
        let mut config = self;
        config.group = group.to_owned();
        config
    }

    /// Records the outcome of a probe: the latency it measured, or that the
    /// endpoint could not be reached.
    pub fn set_latency(self, latency: Option<u16>) -> (r: Self)
        ensures
            r@ == (SsrConfigView { delay: latency_text(latency), ..self@ }),
    {
        let mut config = self;
        config.delay = latency_label(latency);
        config
    }

    /// Records a measured latency of `delay` milliseconds.
    pub fn set_delay(self, delay: u16) -> (r: Self)
        ensures
            r@ == (SsrConfigView { delay: delay_text(delay), ..self@ }),
    {
        let mut config = self;
        config.delay = delay_label(delay);
        config
    }
}

} // verus!
