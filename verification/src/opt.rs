//! The options of the program, checked.

use ja3_rustls::Ja3;
use vstd::prelude::*;
use vstd::slice::slice_subrange;
use vstd::string::*;
use vstd::utf8::encode_utf8;

use crate::addr::SocketAddr;
use crate::text::{
    chars_of, decimal_text, is_digit, is_space, law_decimal_forms_hold_digits_only,
    law_numbers_are_not_trimmed, law_numbers_are_read_back, law_texts_are_split_at_every_separator,
    law_trimming_removes_what_surrounds, lemma_trimmed_again, lemma_trimmed_around,
    lemma_trimmed_holds_no_more, lemma_trimmed_start_of_end, parse_number, parsed_number, split_on,
    split_ranges, trim, trimmed, trimmed_end, trimmed_start, unsigned_part,
};
use crate::time::{Duration, NANOS_PER_SEC};

verus! {

/// How sessions are pooled and kept alive.
#[derive(Debug, Clone, Copy)]
pub struct ReuseConfig {
    /// Most sessions that wait in the pool
    pub max_idle: usize,
    /// Most requests that one session carries
    pub max_requests: usize,
    /// Age from which a session is not used again
    pub max_age: Duration,
    /// Idle time after which a session is not used again
    pub idle_timeout: Duration,
    /// Time between keepalive pings
    pub keepalive_interval: Duration,
    /// Time that the answer to a ping may take
    pub keepalive_timeout: Duration,
    /// Spread of eviction times, in percent
    pub jitter_percent: u8,
}

/// The first rule that the given settings break, in words.
pub open spec fn broken_rule(
    max_idle: usize,
    max_requests: usize,
    max_age_secs: u64,
    idle_timeout_secs: u64,
    keepalive_interval_secs: u64,
    keepalive_timeout_secs: u64,
    jitter_percent: u8,
) -> Option<Seq<char>> {
    if max_idle == 0 {
        Some("reuse-max-idle must be greater than 0"@)
    } else if max_requests == 0 {
        Some("reuse-max-requests must be greater than 0"@)
    } else if max_age_secs == 0 {
        Some("reuse-max-age must be greater than 0"@)
    } else if idle_timeout_secs == 0 {
        Some("reuse-idle-timeout must be greater than 0"@)
    } else if keepalive_interval_secs == 0 {
        Some("keepalive-interval must be greater than 0"@)
    } else if keepalive_timeout_secs == 0 {
        Some("keepalive-timeout must be greater than 0"@)
    } else if keepalive_timeout_secs >= keepalive_interval_secs {
        Some("keepalive-timeout must be less than keepalive-interval"@)
    } else if idle_timeout_secs >= max_age_secs {
        Some("reuse-idle-timeout must be less than reuse-max-age"@)
    } else if jitter_percent > 100 {
        Some("reuse-jitter-percent must be between 0 and 100"@)
    } else {
        None
    }
}

/// What every accepted configuration keeps.
pub open spec fn sound_config(config: ReuseConfig) -> bool {
    &&& config.max_idle > 0
    &&& config.max_requests > 0
    &&& 0 < config.keepalive_timeout@ < config.keepalive_interval@
    &&& 0 < config.idle_timeout@ < config.max_age@
    &&& config.jitter_percent <= 100
}

impl ReuseConfig {
    /// Checks the settings and makes a configuration of them. Times are given in
    /// seconds. Whether keepalive was asked for explicitly makes no difference here:
    /// see [`CltOpt::reuse_warning`].
    pub fn new(
        max_idle: usize,
        max_requests: usize,
        max_age_secs: u64,
        idle_timeout_secs: u64,
        keepalive_interval_secs: u64,
        keepalive_timeout_secs: u64,
        jitter_percent: u8,
        keepalive_flag_was_set: bool,
    ) -> (r: Result<Self, String>)
        ensures
            ({
                let broken = broken_rule(
                    max_idle,
                    max_requests,
                    max_age_secs,
                    idle_timeout_secs,
                    keepalive_interval_secs,
                    keepalive_timeout_secs,
                    jitter_percent,
                );
                match r {
                    Ok(config) => {
                        &&& broken is None
                        &&& config.max_idle == max_idle
                        &&& config.max_requests == max_requests
                        &&& config.max_age@ == max_age_secs * NANOS_PER_SEC
                        &&& config.idle_timeout@ == idle_timeout_secs * NANOS_PER_SEC
                        &&& config.keepalive_interval@ == keepalive_interval_secs * NANOS_PER_SEC
                        &&& config.keepalive_timeout@ == keepalive_timeout_secs * NANOS_PER_SEC
                        &&& config.jitter_percent == jitter_percent
                        &&& sound_config(config)
                    },
                    Err(message) => broken == Some(message@),
                }
            }),
    {
        if max_idle == 0 {
            return Err("reuse-max-idle must be greater than 0".to_owned());
        }
        if max_requests == 0 {
            return Err("reuse-max-requests must be greater than 0".to_owned());
        }
        if max_age_secs == 0 {
            return Err("reuse-max-age must be greater than 0".to_owned());
        }
        if idle_timeout_secs == 0 {
            return Err("reuse-idle-timeout must be greater than 0".to_owned());
        }
        if keepalive_interval_secs == 0 {
            return Err("keepalive-interval must be greater than 0".to_owned());
        }
        if keepalive_timeout_secs == 0 {
            return Err("keepalive-timeout must be greater than 0".to_owned());
        }
        if keepalive_timeout_secs >= keepalive_interval_secs {
            return Err("keepalive-timeout must be less than keepalive-interval".to_owned());
        }
        if idle_timeout_secs >= max_age_secs {
            return Err("reuse-idle-timeout must be less than reuse-max-age".to_owned());
        }
        if jitter_percent > 100 {
            return Err("reuse-jitter-percent must be between 0 and 100".to_owned());
        }
        Ok(
            ReuseConfig {
                max_idle,
                max_requests,
                max_age: Duration::from_secs(max_age_secs),
                idle_timeout: Duration::from_secs(idle_timeout_secs),
                keepalive_interval: Duration::from_secs(keepalive_interval_secs),
                keepalive_timeout: Duration::from_secs(keepalive_timeout_secs),
                jitter_percent,
            },
        )
    }
}

/// The type `ja3_rustls::Ja3`: a TLS fingerprint that the library hands on
/// without looking into it.
#[verifier::external_type_specification]
#[verifier::external_body]
pub struct ExJa3(ja3_rustls::Ja3);

/// `Ja3::clone`, derived over a number and lists of numbers: the clone is equal
/// to its source.
pub assume_specification[ <ja3_rustls::Ja3 as Clone>::clone ](ja3: &ja3_rustls::Ja3) -> (r:
    ja3_rustls::Ja3)
    ensures
        r == *ja3,
;

/// What the client's TLS handshake is made to look like.
#[derive(Debug, Clone)]
pub struct FingerprintSpec {
    pub ja3: Option<Ja3>,
    pub alpn: Option<Vec<Vec<u8>>>,
    pub signature_algos: Option<Vec<u16>>,
    pub supported_versions: Option<Vec<u16>>,
    pub keyshare_curves: Option<Vec<u16>>,
}

/// What the client's end of the tunnel is made from.
#[derive(Debug)]
pub struct ClientSettings {
    pub key: Vec<u8>,
    pub server_name: String,
    pub fingerprint: FingerprintSpec,
}

/// The options of the client.
#[derive(Debug)]
pub struct CltOpt {
    /// Address that the built-in proxy server listens on
    pub listen_addr: SocketAddr,
    /// Server to connect to, as HOST:PORT
    pub remote_addr: String,
    /// Server name to send to the server
    pub server_name: String,
    /// Key to encrypt all traffic with
    pub key: String,
    /// Least and most connections to establish in advance
    pub preflight: (usize, Option<usize>),
    /// Fingerprint to apply to the handshake
    pub tls_ja3: Option<Ja3>,
    /// Application protocols to offer
    pub tls_alpn: Option<Vec<Vec<u8>>>,
    /// Signature algorithms to offer
    pub tls_sigalgos: Option<Vec<u16>>,
    /// TLS versions to offer
    pub tls_versions: Option<Vec<u16>>,
    /// Curves to offer key shares for
    pub tls_keyshare: Option<Vec<u16>>,
    /// Whether sessions are pooled
    pub reuse: bool,
    /// Most sessions that wait in the pool
    pub reuse_max_idle: usize,
    /// Most requests that one session carries
    pub reuse_max_requests: usize,
    /// Age from which a session is not used again, in seconds
    pub reuse_max_age: u64,
    /// Idle time after which a session is not used again, in seconds
    pub reuse_idle_timeout: u64,
    /// Time between keepalive pings, in seconds
    pub keepalive_interval: u64,
    /// Time that the answer to a ping may take, in seconds
    pub keepalive_timeout: u64,
    /// Spread of eviction times, in percent
    pub reuse_jitter_percent: u8,
}

impl Clone for CltOpt {
    fn clone(&self) -> (r: Self)
        ensures
            same_options(r, *self),
    {
        CltOpt {
            listen_addr: self.listen_addr,
            remote_addr: self.remote_addr.clone(),
            server_name: self.server_name.clone(),
            key: self.key.clone(),
            preflight: self.preflight,
            tls_ja3: match &self.tls_ja3 {
                Some(ja3) => Some(ja3.clone()),
                None => None,
            },
            tls_alpn: copy_strings(&self.tls_alpn),
            tls_sigalgos: copy_numbers(&self.tls_sigalgos),
            tls_versions: copy_numbers(&self.tls_versions),
            tls_keyshare: copy_numbers(&self.tls_keyshare),
            reuse: self.reuse,
            reuse_max_idle: self.reuse_max_idle,
            reuse_max_requests: self.reuse_max_requests,
            reuse_max_age: self.reuse_max_age,
            reuse_idle_timeout: self.reuse_idle_timeout,
            keepalive_interval: self.keepalive_interval,
            keepalive_timeout: self.keepalive_timeout,
            reuse_jitter_percent: self.reuse_jitter_percent,
        }
    }
}

/// Whether two sets of client options say the same.
pub open spec fn same_options(a: CltOpt, b: CltOpt) -> bool {
    &&& a.listen_addr == b.listen_addr
    &&& a.remote_addr@ == b.remote_addr@
    &&& a.server_name@ == b.server_name@
    &&& a.key@ == b.key@
    &&& a.preflight == b.preflight
    &&& a.tls_ja3 == b.tls_ja3
    &&& same_strings(a.tls_alpn, b.tls_alpn)
    &&& same_numbers(a.tls_sigalgos, b.tls_sigalgos)
    &&& same_numbers(a.tls_versions, b.tls_versions)
    &&& same_numbers(a.tls_keyshare, b.tls_keyshare)
    &&& a.reuse == b.reuse
    &&& a.reuse_max_idle == b.reuse_max_idle
    &&& a.reuse_max_requests == b.reuse_max_requests
    &&& a.reuse_max_age == b.reuse_max_age
    &&& a.reuse_idle_timeout == b.reuse_idle_timeout
    &&& a.keepalive_interval == b.keepalive_interval
    &&& a.keepalive_timeout == b.keepalive_timeout
    &&& a.reuse_jitter_percent == b.reuse_jitter_percent
}

/// Whether two lists of numbers, if any, are the same.
pub open spec fn same_numbers(a: Option<Vec<u16>>, b: Option<Vec<u16>>) -> bool {
    match (a, b) {
        (Some(x), Some(y)) => x@ == y@,
        (None, None) => true,
        _ => false,
    }
}

/// Whether two lists of byte strings, if any, are the same.
pub open spec fn same_strings(a: Option<Vec<Vec<u8>>>, b: Option<Vec<Vec<u8>>>) -> bool {
    match (a, b) {
        (Some(x), Some(y)) => {
            &&& x@.len() == y@.len()
            &&& forall|i: int| 0 <= i < x@.len() ==> (#[trigger] x@[i])@ == y@[i]@
        },
        (None, None) => true,
        _ => false,
    }
}

fn copy_numbers(numbers: &Option<Vec<u16>>) -> (r: Option<Vec<u16>>)
    ensures
        same_numbers(r, *numbers),
{
    match numbers {
        Some(list) => {
            let copy = list.clone();
            assert(copy@ =~= list@);
            Some(copy)
        },
        None => None,
    }
}

fn copy_strings(strings: &Option<Vec<Vec<u8>>>) -> (r: Option<Vec<Vec<u8>>>)
    ensures
        same_strings(r, *strings),
{
    match strings {
        Some(list) => {
            let mut copy: Vec<Vec<u8>> = Vec::new();
            let mut i: usize = 0;
            while i < list.len()
                invariant
                    i <= list@.len(),
                    copy@.len() == i,
                    forall|k: int| 0 <= k < i ==> (#[trigger] copy@[k])@ == list@[k]@,
                decreases list@.len() - i,
            {
                let item = list[i].clone();
                assert(item@ =~= list@[i as int]@);
                copy.push(item);
                i = i + 1;
            }
            Some(copy)
        },
        None => None,
    }
}

/// Whether a time between keepalive pings was asked for in vain, because sessions
/// are not pooled.
pub open spec fn keepalive_needs_reuse(opt: CltOpt, keepalive_flag_was_set: bool) -> bool {
    keepalive_flag_was_set && !opt.reuse
}

impl CltOpt {
    /// The rule that the reuse settings break, if reuse is on and they break one.
    pub open spec fn broken_reuse_rule(&self) -> Option<Seq<char>> {
        broken_rule(
            self.reuse_max_idle,
            self.reuse_max_requests,
            self.reuse_max_age,
            self.reuse_idle_timeout,
            self.keepalive_interval,
            self.keepalive_timeout,
            self.reuse_jitter_percent,
        )
    }

    /// Whether `config` holds the reuse settings of these options.
    pub open spec fn has_reuse_settings(&self, config: ReuseConfig) -> bool {
        &&& config.max_idle == self.reuse_max_idle
        &&& config.max_requests == self.reuse_max_requests
        &&& config.max_age@ == self.reuse_max_age * NANOS_PER_SEC
        &&& config.idle_timeout@ == self.reuse_idle_timeout * NANOS_PER_SEC
        &&& config.keepalive_interval@ == self.keepalive_interval * NANOS_PER_SEC
        &&& config.keepalive_timeout@ == self.keepalive_timeout * NANOS_PER_SEC
        &&& config.jitter_percent == self.reuse_jitter_percent
    }

    /// What the handshake is made to look like.
    pub fn get_fingerprint_spec(&self) -> (r: FingerprintSpec)
        ensures
            r.ja3 == self.tls_ja3,
            same_strings(r.alpn, self.tls_alpn),
            same_numbers(r.signature_algos, self.tls_sigalgos),
            same_numbers(r.supported_versions, self.tls_versions),
            same_numbers(r.keyshare_curves, self.tls_keyshare),
    {
        let ja3 = match &self.tls_ja3 {
            Some(ja3) => Some(ja3.clone()),
            None => None,
        };
        FingerprintSpec {
            ja3,
            alpn: copy_strings(&self.tls_alpn),
            signature_algos: copy_numbers(&self.tls_sigalgos),
            supported_versions: copy_numbers(&self.tls_versions),
            keyshare_curves: copy_numbers(&self.tls_keyshare),
        }
    }

    /// What the client's end of the tunnel is made from.
    pub fn build_client(&self) -> (r: ClientSettings)
        ensures
            r.key@ == encode_utf8(self.key@),
            r.server_name@ == self.server_name@,
            r.fingerprint.ja3 == self.tls_ja3,
            same_strings(r.fingerprint.alpn, self.tls_alpn),
            same_numbers(r.fingerprint.signature_algos, self.tls_sigalgos),
            same_numbers(r.fingerprint.supported_versions, self.tls_versions),
            same_numbers(r.fingerprint.keyshare_curves, self.tls_keyshare),
    {
        ClientSettings {
            key: self.key.as_str().as_bytes_vec(),
            server_name: self.server_name.clone(),
            fingerprint: self.get_fingerprint_spec(),
        }
    }

    /// What the user is to be warned of: a time between keepalive pings was asked
    /// for, and without reuse there are none. `keepalive_flag_was_set` tells
    /// whether it was asked for. The options are accepted all the same.
    pub fn reuse_warning(&self, keepalive_flag_was_set: bool) -> (r: Option<&'static str>)
        ensures
            match r {
                Some(warning) => {
                    &&& keepalive_needs_reuse(*self, keepalive_flag_was_set)
                    &&& warning@ == "keepalive-interval requires --reuse to be enabled"@
                },
                None => !keepalive_needs_reuse(*self, keepalive_flag_was_set),
            },
    {
        if keepalive_flag_was_set && !self.reuse {
            Some("keepalive-interval requires --reuse to be enabled")
        } else {
            None
        }
    }

    /// How sessions are pooled, if they are to be pooled.
    pub fn reuse_config(&self) -> (r: Result<Option<ReuseConfig>, String>)
        ensures
            match r {
                Ok(Some(config)) => {
                    &&& self.reuse
                    &&& self.broken_reuse_rule() is None
                    &&& self.has_reuse_settings(config)
                    &&& sound_config(config)
                },
                Ok(None) => !self.reuse,
                Err(message) => self.reuse && self.broken_reuse_rule() == Some(message@),
            },
    {
        if !self.reuse {
            return Ok(None);
        }
        match ReuseConfig::new(
            self.reuse_max_idle,
            self.reuse_max_requests,
            self.reuse_max_age,
            self.reuse_idle_timeout,
            self.keepalive_interval,
            self.keepalive_timeout,
            self.reuse_jitter_percent,
            true,
        ) {
            Ok(config) => Ok(Some(config)),
            Err(message) => Err(message),
        }
    }
}

/// The options of the server.
#[derive(Debug)]
pub struct SvrOpt {
    /// Address to listen on
    pub listen_addr: SocketAddr,
    /// Server whose handshake is shown to strangers, as HOST:PORT
    pub camouflage_addr: String,
    /// Key to encrypt all traffic with
    pub key: String,
    /// Number of handshakes that are remembered against replay
    pub replay_filter_size: usize,
}

impl Clone for SvrOpt {
    fn clone(&self) -> (r: Self)
        ensures
            r.listen_addr == self.listen_addr,
            r.camouflage_addr@ == self.camouflage_addr@,
            r.key@ == self.key@,
            r.replay_filter_size == self.replay_filter_size,
    {
        SvrOpt {
            listen_addr: self.listen_addr,
            camouflage_addr: self.camouflage_addr.clone(),
            key: self.key.clone(),
            replay_filter_size: self.replay_filter_size,
        }
    }
}

/// What the server's end of the tunnel is made from.
#[derive(Debug)]
pub struct ServerSettings {
    pub key: Vec<u8>,
    pub camouflage_addr: String,
    pub replay_filter_size: usize,
}

impl SvrOpt {
    /// What the server's end of the tunnel is made from.
    pub fn build_server(&self) -> (r: ServerSettings)
        ensures
            r.key@ == encode_utf8(self.key@),
            r.camouflage_addr@ == self.camouflage_addr@,
            r.replay_filter_size == self.replay_filter_size,
    {
        ServerSettings {
            key: self.key.as_str().as_bytes_vec(),
            camouflage_addr: self.camouflage_addr.clone(),
            replay_filter_size: self.replay_filter_size,
        }
    }
}

/// The least and most connections to establish in advance that `s` asks for, or
/// what is wrong with it.
pub open spec fn preflight_bounds(s: Seq<char>) -> Result<(nat, Option<nat>), Seq<char>> {
    let max = usize::MAX as nat;
    let text = trimmed(s);
    if text.len() == 0 {
        Ok((0, Some(0)))
    } else if parsed_number(text, max) is Some {
        let n = parsed_number(text, max)->0;
        Ok((n, Some(n)))
    } else if text.contains(':') {
        let colon = text.index_of_first(':')->0;
        let low = trimmed(text.take(colon));
        let high = trimmed(text.skip(colon + 1));
        if low.len() > 0 && parsed_number(low, max) is None {
            Err("Min present but not integer"@)
        } else if high.len() > 0 && parsed_number(high, max) is None {
            Err("Max present but not integer"@)
        } else {
            let least = if low.len() == 0 {
                0
            } else {
                parsed_number(low, max)->0
            };
            let most = if high.len() == 0 {
                None
            } else {
                parsed_number(high, max)
            };
            if least == 0 && most != Some(0nat) {
                Err("Min cannot be 0 if max is not 0"@)
            } else {
                Ok((least, most))
            }
        }
    } else {
        Err("Unrecognized bounds, expected format: NUM, MIN:MAX, MIN:, :MAX"@)
    }
}

fn parse_usize(s: &[char]) -> (r: Option<usize>)
    ensures
        match r {
            Some(n) => parsed_number(s@, usize::MAX as nat) == Some(n as nat),
            None => parsed_number(s@, usize::MAX as nat) is None,
        },
{
    match parse_number(s, usize::MAX as u64) {
        Some(n) => Some(n as usize),
        None => None,
    }
}

/// The first place where `c` stands in `s`.
fn find_char(s: &[char], c: char) -> (r: Option<usize>)
    ensures
        match r {
            Some(i) => s@.contains(c) && s@.index_of_first(c) == Some(i as int) && i < s@.len(),
            None => !s@.contains(c),
        },
{
    let mut i: usize = 0;
    while i < s.len()
        invariant
            i <= s@.len(),
            forall|k: int| 0 <= k < i ==> s@[k] != c,
        decreases s@.len() - i,
    {
        if s[i] == c {
            proof {
                s@.index_of_first_ensures(c);
                assert(s@.contains(c));
            }
            return Some(i);
        }
        i = i + 1;
    }
    None
}

/// Reads how many connections to establish in advance: a number, or a least and a
/// most number with a colon between them.
pub fn parse_preflight_bounds(s: &str) -> (r: Result<(usize, Option<usize>), &'static str>)
    ensures
        match r {
            Ok((least, most)) => preflight_bounds(s@) == Ok::<(nat, Option<nat>), Seq<char>>(
                (
                    least as nat,
                    match most {
                        Some(n) => Some(n as nat),
                        None => None,
                    },
                ),
            ),
            Err(message) => preflight_bounds(s@) == Err::<(nat, Option<nat>), Seq<char>>(message@),
        },
{
    let chars = chars_of(s);
    let text = trim(chars.as_slice());
    if text.len() == 0 {
        return Ok((0, Some(0)));
    }
    if let Some(n) = parse_usize(text) {
        return Ok((n, Some(n)));
    }
    match find_char(text, ':') {
        Some(colon) => {
            let low = trim(slice_subrange(text, 0, colon));
            let high = trim(slice_subrange(text, colon + 1, text.len()));
            assert(text@.take(colon as int) =~= text@.subrange(0, colon as int));
            assert(text@.skip(colon + 1) =~= text@.subrange(colon + 1, text@.len() as int));
            let least: usize = if low.len() == 0 {
                0
            } else {
                match parse_usize(low) {
                    Some(n) => n,
                    None => {
                        return Err("Min present but not integer");
                    },
                }
            };
            let most: Option<usize> = if high.len() == 0 {
                None
            } else {
                match parse_usize(high) {
                    Some(n) => Some(n),
                    None => {
                        return Err("Max present but not integer");
                    },
                }
            };
            let most_is_zero: bool = match most {
                Some(n) => n == 0,
                None => false,
            };
            if least == 0 && !most_is_zero {
                Err("Min cannot be 0 if max is not 0")
            } else {
                Ok((least, most))
            }
        },
        None => Err("Unrecognized bounds, expected format: NUM, MIN:MAX, MIN:, :MAX"),
    }
}

/// Whether every part of a list is a number of at most 16 bits.
pub open spec fn all_u16(parts: Seq<Seq<char>>) -> bool {
    forall|i: int| 0 <= i < parts.len() ==> parsed_number(#[trigger] parts[i], 0xffff) is Some
}

/// Reads numbers of at most 16 bits with commas between them.
pub fn parse_u16_array(s: &str) -> (r: Result<Vec<u16>, &'static str>)
    ensures
        match r {
            Ok(numbers) => {
                &&& all_u16(split_on(s@, ','))
                &&& numbers@.len() == split_on(s@, ',').len()
                &&& forall|i: int|
                    0 <= i < numbers@.len() ==> parsed_number(split_on(s@, ',')[i], 0xffff)
                        == Some(#[trigger] numbers@[i] as nat)
            },
            Err(message) => !all_u16(split_on(s@, ',')) && message@ == "Not valid value"@,
        },
{
    let chars = chars_of(s);
    let ranges = split_ranges(chars.as_slice(), ',');
    let ghost parts = split_on(s@, ',');
    let mut numbers: Vec<u16> = Vec::new();
    let mut i: usize = 0;
    while i < ranges.len()
        invariant
            chars@ == s@,
            parts == split_on(s@, ','),
            ranges@.len() == parts.len(),
            forall|k: int|
                0 <= k < ranges@.len() ==> {
                    &&& (#[trigger] ranges@[k]).0 <= ranges@[k].1 <= chars@.len()
                    &&& chars@.subrange(ranges@[k].0 as int, ranges@[k].1 as int) == parts[k]
                },
            i <= ranges@.len(),
            numbers@.len() == i,
            forall|k: int|
                0 <= k < i ==> parsed_number(parts[k], 0xffff) == Some(
                    #[trigger] numbers@[k] as nat,
                ),
        decreases ranges@.len() - i,
    {
        let (start, end) = ranges[i];
        assert(ranges@[i as int] == (start, end));
        match parse_number(slice_subrange(chars.as_slice(), start, end), 0xffff) {
            Some(n) => {
                numbers.push(n as u16);
            },
            None => {
                assert(parsed_number(parts[i as int], 0xffff) is None);
                return Err("Not valid value");
            },
        }
        i = i + 1;
    }
    assert forall|k: int| 0 <= k < parts.len() implies parsed_number(
        #[trigger] parts[k],
        0xffff,
    ) is Some by {
        assert(parsed_number(parts[k], 0xffff) == Some(numbers@[k] as nat));
    }
    Ok(numbers)
}

/// Reads names with commas between them, each as the bytes of its text.
pub fn parse_alpn_array(s: &str) -> (r: Result<Vec<Vec<u8>>, &'static str>)
    ensures
        match r {
            Ok(names) => {
                &&& names@.len() == split_on(s@, ',').len()
                &&& forall|i: int|
                    0 <= i < names@.len() ==> (#[trigger] names@[i])@ == encode_utf8(
                        split_on(s@, ',')[i],
                    )
            },
            Err(_) => false,
        },
{
    let chars = chars_of(s);
    let ranges = split_ranges(chars.as_slice(), ',');
    let ghost parts = split_on(s@, ',');
    let mut names: Vec<Vec<u8>> = Vec::new();
    let mut i: usize = 0;
    while i < ranges.len()
        invariant
            chars@ == s@,
            parts == split_on(s@, ','),
            ranges@.len() == parts.len(),
            forall|k: int|
                0 <= k < ranges@.len() ==> {
                    &&& (#[trigger] ranges@[k]).0 <= ranges@[k].1 <= chars@.len()
                    &&& chars@.subrange(ranges@[k].0 as int, ranges@[k].1 as int) == parts[k]
                },
            i <= ranges@.len(),
            names@.len() == i,
            forall|k: int| 0 <= k < i ==> (#[trigger] names@[k])@ == encode_utf8(parts[k]),
        decreases ranges@.len() - i,
    {
        let (start, end) = ranges[i];
        assert(ranges@[i as int] == (start, end));
        names.push(s.substring_char(start, end).as_bytes_vec());
        i = i + 1;
    }
    Ok(names)
}

/// Bounds whose least number is zero establish no connection in advance.
pub proof fn law_no_preflight_starts_at_zero(s: Seq<char>, most: Option<nat>)
    requires
        preflight_bounds(s) == Ok::<(nat, Option<nat>), Seq<char>>((0, most)),
    ensures
        most == Some(0nat),
{
}

/// A plain number asks for exactly that many connections.
pub proof fn law_plain_numbers_are_exact_bounds(n: nat)
    requires
        n <= usize::MAX,
    ensures
        preflight_bounds(decimal_text(n)) == Ok::<(nat, Option<nat>), Seq<char>>((n, Some(n))),
{
    law_numbers_are_read_back(n, usize::MAX as nat);
    law_numbers_are_not_trimmed(n);
    assert(decimal_text(n).len() > 0);
}

/// Settings are accepted exactly where they keep every rule: nothing but the
/// jitter is zero, an answer to a ping is due before the next ping, sessions
/// become stale before they become old, and the jitter is a percentage.
pub proof fn law_sound_settings_are_accepted(
    max_idle: usize,
    max_requests: usize,
    max_age: u64,
    idle_timeout: u64,
    keepalive_interval: u64,
    keepalive_timeout: u64,
    jitter_percent: u8,
)
    ensures
        broken_rule(
            max_idle,
            max_requests,
            max_age,
            idle_timeout,
            keepalive_interval,
            keepalive_timeout,
            jitter_percent,
        ) is None <==> {
            &&& max_idle > 0
            &&& max_requests > 0
            &&& 0 < idle_timeout < max_age
            &&& 0 < keepalive_timeout < keepalive_interval
            &&& jitter_percent <= 100
        },
{
}

proof fn lemma_colon_is_no_digit(text: Seq<char>, max: nat)
    requires
        text.contains(':'),
    ensures
        parsed_number(text, max) is None,
{
    let i = choose|i: int| 0 <= i < text.len() && text[i] == ':';
    let digits = unsigned_part(text);
    if text[0] == '+' {
        assert(digits[i - 1] == ':');
        assert(!is_digit(digits[i - 1]));
    } else {
        assert(digits[i] == ':');
        assert(!is_digit(digits[i]));
    }
}

/// The bounds on both sides of the first colon are read each by itself, without the
/// white space around it: a side that is empty sets no bound, one that is no number is
/// refused with its name, and none in advance is asked for on both sides or not at all.
pub proof fn law_bounds_are_read_on_both_sides(low: Seq<char>, high: Seq<char>)
    requires
        !low.contains(':'),
    ensures
        ({
            let max = usize::MAX as nat;
            let l = trimmed(low);
            let h = trimmed(high);
            let low_bad = l.len() > 0 && parsed_number(l, max) is None;
            let high_bad = h.len() > 0 && parsed_number(h, max) is None;
            let low_zero = l.len() == 0 || parsed_number(l, max) == Some(0nat);
            let high_zero = parsed_number(h, max) == Some(0nat);
            let bounds = preflight_bounds(low.push(':') + high);
            &&& low_bad <==> bounds == Err::<(nat, Option<nat>), Seq<char>>(
                "Min present but not integer"@,
            )
            &&& !low_bad && high_bad ==> bounds == Err::<(nat, Option<nat>), Seq<char>>(
                "Max present but not integer"@,
            )
            &&& !low_bad && !high_bad && low_zero && !high_zero ==> bounds == Err::<
                (nat, Option<nat>),
                Seq<char>,
            >("Min cannot be 0 if max is not 0"@)
            &&& bounds is Ok <==> !low_bad && !high_bad && (!low_zero || high_zero)
            &&& bounds matches Ok((least, most)) ==> {
                &&& l.len() == 0 ==> least == 0
                &&& l.len() > 0 ==> parsed_number(l, max) == Some(least)
                &&& h.len() == 0 <==> most is None
                &&& h.len() > 0 ==> parsed_number(h, max) == most
            }
        }),
{
    reveal_strlit("Min present but not integer");
    reveal_strlit("Max present but not integer");
    reveal_strlit("Min cannot be 0 if max is not 0");
    let text = trimmed(low.push(':') + high);
    let start = trimmed_start(low);
    let end = trimmed_end(high);
    assert("Min present but not integer"@[1] == 'i');
    assert("Max present but not integer"@[1] == 'a');
    assert("Min present but not integer"@.len() != "Min cannot be 0 if max is not 0"@.len());
    lemma_trimmed_around(low, ':', high);
    assert(text == start.push(':') + end);
    assert(text[start.len() as int] == ':');
    lemma_colon_is_no_digit(text, usize::MAX as nat);
    lemma_trimmed_holds_no_more(low, ':');
    text.index_of_first_ensures(':');
    let colon = text.index_of_first(':')->0;
    if colon < start.len() {
        assert(text[colon] == start[colon]);
        assert(start.contains(':'));
    }
    assert(colon == start.len());
    assert(text.take(colon) =~= start);
    assert(text.skip(colon + 1) =~= end);
    lemma_trimmed_again(low);
    lemma_trimmed_start_of_end(high);
    lemma_trimmed_again(trimmed_start(high));
    assert(trimmed(start) == trimmed(low));
    assert(trimmed(end) == trimmed(high));
}

proof fn lemma_padded_number(before: Seq<char>, n: nat, after: Seq<char>)
    requires
        forall|i: int| 0 <= i < before.len() ==> is_space(#[trigger] before[i]),
        forall|i: int| 0 <= i < after.len() ==> is_space(#[trigger] after[i]),
    ensures
        trimmed(before + decimal_text(n) + after) == decimal_text(n),
        !(before + decimal_text(n) + after).contains(':'),
        decimal_text(n).len() > 0,
{
    let text = decimal_text(n);
    let all = before + text + after;
    law_decimal_forms_hold_digits_only(n, 0);
    law_decimal_forms_hold_digits_only(n, text.len() - 1);
    law_trimming_removes_what_surrounds(before, text, after);
    assert forall|i: int| 0 <= i < all.len() implies all[i] != ':' by {
        if i < before.len() {
            assert(all[i] == before[i]);
        } else if i < before.len() + text.len() {
            assert(all[i] == text[i - before.len()]);
            law_decimal_forms_hold_digits_only(n, i - before.len());
        } else {
            assert(all[i] == after[i - before.len() - text.len()]);
        }
    }
}

/// Two numbers with a colon between them, and white space anywhere around them, are
/// the least and the most number of connections, digit for digit; without the second
/// there is no limit, and without the first, or with zero, only zero may follow.
pub proof fn law_bounds_are_the_numbers_written(
    a: Seq<char>,
    least: nat,
    b: Seq<char>,
    c: Seq<char>,
    most: nat,
    d: Seq<char>,
)
    requires
        least <= usize::MAX,
        most <= usize::MAX,
        forall|i: int| 0 <= i < a.len() ==> is_space(#[trigger] a[i]),
        forall|i: int| 0 <= i < b.len() ==> is_space(#[trigger] b[i]),
        forall|i: int| 0 <= i < c.len() ==> is_space(#[trigger] c[i]),
        forall|i: int| 0 <= i < d.len() ==> is_space(#[trigger] d[i]),
    ensures
        ({
            let low = a + decimal_text(least) + b;
            let high = c + decimal_text(most) + d;
            let refused = Err::<(nat, Option<nat>), Seq<char>>("Min cannot be 0 if max is not 0"@);
            let both = preflight_bounds(low.push(':') + high);
            let no_most = preflight_bounds(low.push(':') + c);
            let no_least = preflight_bounds(a.push(':') + high);
            &&& least > 0 || most == 0 ==> both == Ok::<(nat, Option<nat>), Seq<char>>(
                (least, Some(most)),
            )
            &&& least == 0 && most > 0 ==> both == refused
            &&& least > 0 ==> no_most == Ok::<(nat, Option<nat>), Seq<char>>((least, None))
            &&& least == 0 ==> no_most == refused
            &&& most == 0 ==> no_least == Ok::<(nat, Option<nat>), Seq<char>>((0, Some(0nat)))
            &&& most > 0 ==> no_least == refused
            &&& preflight_bounds(a.push(':') + c) == refused
            &&& preflight_bounds(low) == Ok::<(nat, Option<nat>), Seq<char>>((least, Some(least)))
            &&& preflight_bounds(a) == Ok::<(nat, Option<nat>), Seq<char>>((0, Some(0nat)))
        }),
{
    let low = a + decimal_text(least) + b;
    let high = c + decimal_text(most) + d;
    let none = Seq::<char>::empty();
    lemma_padded_number(a, least, b);
    lemma_padded_number(c, most, d);
    law_numbers_are_read_back(least, usize::MAX as nat);
    law_numbers_are_read_back(most, usize::MAX as nat);
    law_trimming_removes_what_surrounds(a, none, none);
    law_trimming_removes_what_surrounds(c, none, none);
    assert(a + none + none =~= a);
    assert(c + none + none =~= c);
    assert(!a.contains(':')) by {
        assert forall|i: int| 0 <= i < a.len() implies a[i] != ':' by {
            assert(is_space(a[i]));
        }
    }
    law_bounds_are_read_on_both_sides(low, high);
    law_bounds_are_read_on_both_sides(low, c);
    law_bounds_are_read_on_both_sides(a, high);
    law_bounds_are_read_on_both_sides(a, c);
    assert(parsed_number(none, usize::MAX as nat) is None);
}

/// What is written between a least and a most number is that least and that most
/// number, plainly.
pub proof fn law_plain_bounds_are_the_numbers_written(least: nat, most: nat)
    requires
        0 < least <= usize::MAX,
        most <= usize::MAX,
    ensures
        preflight_bounds(decimal_text(least) + seq![':'] + decimal_text(most)) == Ok::<
            (nat, Option<nat>),
            Seq<char>,
        >((least, Some(most))),
        preflight_bounds(decimal_text(least) + seq![':']) == Ok::<(nat, Option<nat>), Seq<char>>(
            (least, None),
        ),
{
    let none = Seq::<char>::empty();
    law_bounds_are_the_numbers_written(none, least, none, none, most, none);
    assert(none + decimal_text(least) + none =~= decimal_text(least));
    assert(none + decimal_text(most) + none =~= decimal_text(most));
    assert(decimal_text(least).push(':') + decimal_text(most) =~= decimal_text(least) + seq![':']
        + decimal_text(most));
    assert(decimal_text(least).push(':') + none =~= decimal_text(least) + seq![':']);
}

/// Without a colon a text asks for nothing if it is blank, for a number of connections
/// if it is one, and is refused otherwise.
pub proof fn law_bounds_without_a_colon_are_one_number(s: Seq<char>)
    requires
        !s.contains(':'),
    ensures
        trimmed(s).len() == 0 ==> preflight_bounds(s) == Ok::<(nat, Option<nat>), Seq<char>>(
            (0, Some(0nat)),
        ),
        parsed_number(trimmed(s), usize::MAX as nat) matches Some(n) ==> preflight_bounds(s)
            == Ok::<(nat, Option<nat>), Seq<char>>((n, Some(n))),
        trimmed(s).len() > 0 && parsed_number(trimmed(s), usize::MAX as nat) is None
            ==> preflight_bounds(s) == Err::<(nat, Option<nat>), Seq<char>>(
            "Unrecognized bounds, expected format: NUM, MIN:MAX, MIN:, :MAX"@,
        ),
{
    lemma_trimmed_holds_no_more(s, ':');
}

/// The rule that settings are refused for is the first that they break, in the order
/// in which the settings are given, and it is told in words.
pub proof fn law_settings_are_refused_for_the_first_broken_rule(
    max_idle: usize,
    max_requests: usize,
    max_age: u64,
    idle_timeout: u64,
    interval: u64,
    timeout: u64,
    jitter: u8,
)
    ensures
        ({
            let broken = broken_rule(
                max_idle,
                max_requests,
                max_age,
                idle_timeout,
                interval,
                timeout,
                jitter,
            );
            let counts = max_idle > 0 && max_requests > 0;
            let times = max_age > 0 && idle_timeout > 0;
            let pings = interval > 0 && timeout > 0;
            &&& max_idle == 0 ==> broken == Some("reuse-max-idle must be greater than 0"@)
            &&& max_idle > 0 && max_requests == 0 ==> broken == Some(
                "reuse-max-requests must be greater than 0"@,
            )
            &&& counts && max_age == 0 ==> broken == Some("reuse-max-age must be greater than 0"@)
            &&& counts && max_age > 0 && idle_timeout == 0 ==> broken == Some(
                "reuse-idle-timeout must be greater than 0"@,
            )
            &&& counts && times && interval == 0 ==> broken == Some(
                "keepalive-interval must be greater than 0"@,
            )
            &&& counts && times && interval > 0 && timeout == 0 ==> broken == Some(
                "keepalive-timeout must be greater than 0"@,
            )
            &&& counts && times && pings && timeout >= interval ==> broken == Some(
                "keepalive-timeout must be less than keepalive-interval"@,
            )
            &&& counts && times && pings && timeout < interval && idle_timeout >= max_age
                ==> broken == Some("reuse-idle-timeout must be less than reuse-max-age"@)
            &&& counts && times && pings && timeout < interval && idle_timeout < max_age && jitter
                > 100 ==> broken == Some("reuse-jitter-percent must be between 0 and 100"@)
        }),
{
}

/// A configuration that holds the settings of some options has their counts as they
/// are and their times in nanoseconds.
pub proof fn law_settings_are_taken_over(opt: CltOpt, config: ReuseConfig)
    requires
        opt.has_reuse_settings(config),
    ensures
        config.max_idle == opt.reuse_max_idle,
        config.max_requests == opt.reuse_max_requests,
        config.max_age@ == opt.reuse_max_age * 1_000_000_000,
        config.idle_timeout@ == opt.reuse_idle_timeout * 1_000_000_000,
        config.keepalive_interval@ == opt.keepalive_interval * 1_000_000_000,
        config.keepalive_timeout@ == opt.keepalive_timeout * 1_000_000_000,
        config.jitter_percent == opt.reuse_jitter_percent,
{
}

/// Options are held to the same rules as settings, each option to its own, and a time
/// between pings is in vain exactly without reuse.
pub proof fn law_options_are_held_to_the_rules(opt: CltOpt, keepalive_flag_was_set: bool)
    ensures
        opt.broken_reuse_rule() is None <==> {
            &&& opt.reuse_max_idle > 0
            &&& opt.reuse_max_requests > 0
            &&& 0 < opt.reuse_idle_timeout < opt.reuse_max_age
            &&& 0 < opt.keepalive_timeout < opt.keepalive_interval
            &&& opt.reuse_jitter_percent <= 100
        },
        opt.broken_reuse_rule() == broken_rule(
            opt.reuse_max_idle,
            opt.reuse_max_requests,
            opt.reuse_max_age,
            opt.reuse_idle_timeout,
            opt.keepalive_interval,
            opt.keepalive_timeout,
            opt.reuse_jitter_percent,
        ),
        keepalive_needs_reuse(opt, keepalive_flag_was_set) <==> keepalive_flag_was_set
            && !opt.reuse,
{
}

/// Lists of numbers are read item by item: a list is good exactly if each item is a
/// number of at most 65535.
pub proof fn law_number_lists_are_good_item_by_item(
    before: Seq<char>,
    after: Seq<char>,
    n: nat,
)
    ensures
        all_u16(split_on(before.push(',') + after, ',')) <==> all_u16(split_on(before, ','))
            && all_u16(split_on(after, ',')),
        !before.contains(',') ==> (all_u16(split_on(before, ',')) <==> parsed_number(before, 65535)
            is Some),
        all_u16(split_on(decimal_text(n), ',')) <==> n <= 65535,
{
    let left = split_on(before, ',');
    let right = split_on(after, ',');
    law_texts_are_split_at_every_separator(before, after, ',');
    let all = left + right;
    if all_u16(all) {
        assert forall|i: int| 0 <= i < left.len() implies parsed_number(#[trigger] left[i], 0xffff)
            is Some by {
            assert(all[i] == left[i]);
        }
        assert forall|i: int| 0 <= i < right.len() implies parsed_number(
            #[trigger] right[i],
            0xffff,
        ) is Some by {
            assert(all[left.len() + i] == right[i]);
        }
    }
    if !before.contains(',') {
        assert(left[0] == before);
    }
    let text = decimal_text(n);
    assert forall|i: int| 0 <= i < text.len() implies text[i] != ',' by {
        law_decimal_forms_hold_digits_only(n, i);
    }
    law_texts_are_split_at_every_separator(text, text, ',');
    law_numbers_are_read_back(n, 65535);
    assert(split_on(text, ',')[0] == text);
}

/// Settings are made into a configuration that holds them, with times in nanoseconds, or
/// refused for the first rule that they break. Whether keepalive was asked for makes no
/// difference.
pub proof fn law_configurations_hold_their_settings(
    max_idle: usize,
    max_requests: usize,
    max_age: u64,
    idle_timeout: u64,
    interval: u64,
    timeout: u64,
    jitter: u8,
    asked: bool,
    r: Result<ReuseConfig, String>,
)
    requires
        call_ensures(
            ReuseConfig::new,
            (max_idle, max_requests, max_age, idle_timeout, interval, timeout, jitter, asked),
            r,
        ),
    ensures
        r is Ok <==> max_idle > 0 && max_requests > 0 && 0 < idle_timeout < max_age && 0 < timeout
            < interval && jitter <= 100,
        r matches Ok(config) ==> {
            &&& config.max_idle == max_idle
            &&& config.max_requests == max_requests
            &&& config.max_age@ == max_age * 1_000_000_000
            &&& config.idle_timeout@ == idle_timeout * 1_000_000_000
            &&& config.keepalive_interval@ == interval * 1_000_000_000
            &&& config.keepalive_timeout@ == timeout * 1_000_000_000
            &&& config.jitter_percent == jitter
        },
        r matches Err(message) ==> broken_rule(
            max_idle,
            max_requests,
            max_age,
            idle_timeout,
            interval,
            timeout,
            jitter,
        ) == Some(message@),
{
}

/// Options ask for pooling exactly with reuse, and are then held to the rules. Without
/// reuse they are accepted whatever they say, with a warning if a time between pings was
/// given.
pub proof fn law_options_are_read_with_reuse_only(
    opt: &CltOpt,
    r: Result<Option<ReuseConfig>, String>,
    asked: bool,
    warning: Option<&'static str>,
)
    ensures
        call_ensures(CltOpt::reuse_config, (opt,), r) ==> {
            &&& !opt.reuse <==> r is Ok && r->Ok_0 is None
            &&& r is Err <==> opt.reuse && opt.broken_reuse_rule() is Some
            &&& r matches Ok(Some(config)) ==> opt.has_reuse_settings(config)
            &&& r matches Err(message) ==> opt.broken_reuse_rule() == Some(message@)
        },
        call_ensures(CltOpt::reuse_warning, (opt, asked), warning) ==> {
            &&& warning is Some <==> asked && !opt.reuse
            &&& warning matches Some(text) ==> text@
                == "keepalive-interval requires --reuse to be enabled"@
        },
{
}

/// The ends of the tunnel are made from the options as they are: the key as its bytes,
/// the names, and each part of the fingerprint in its own place.
pub proof fn law_tunnels_are_made_from_the_options(
    opt: &CltOpt,
    spec: FingerprintSpec,
    client: ClientSettings,
    server_opt: &SvrOpt,
    server: ServerSettings,
)
    ensures
        call_ensures(CltOpt::get_fingerprint_spec, (opt,), spec) ==> {
            &&& spec.ja3 == opt.tls_ja3
            &&& same_strings(spec.alpn, opt.tls_alpn)
            &&& same_numbers(spec.signature_algos, opt.tls_sigalgos)
            &&& same_numbers(spec.supported_versions, opt.tls_versions)
            &&& same_numbers(spec.keyshare_curves, opt.tls_keyshare)
        },
        call_ensures(CltOpt::build_client, (opt,), client) ==> {
            &&& client.key@ == encode_utf8(opt.key@)
            &&& client.server_name@ == opt.server_name@
            &&& client.fingerprint.ja3 == opt.tls_ja3
            &&& same_strings(client.fingerprint.alpn, opt.tls_alpn)
            &&& same_numbers(client.fingerprint.signature_algos, opt.tls_sigalgos)
            &&& same_numbers(client.fingerprint.supported_versions, opt.tls_versions)
            &&& same_numbers(client.fingerprint.keyshare_curves, opt.tls_keyshare)
        },
        call_ensures(SvrOpt::build_server, (server_opt,), server) ==> {
            &&& server.key@ == encode_utf8(server_opt.key@)
            &&& server.camouflage_addr@ == server_opt.camouflage_addr@
            &&& server.replay_filter_size == server_opt.replay_filter_size
        },
{
}

/// Two lists are the same if neither is there, or both are and have the same items in
/// the same places.
pub proof fn law_lists_are_the_same_item_by_item(
    a: Option<Vec<u16>>,
    b: Option<Vec<u16>>,
    x: Option<Vec<Vec<u8>>>,
    y: Option<Vec<Vec<u8>>>,
    i: int,
)
    ensures
        same_numbers(a, b) ==> (a is Some <==> b is Some),
        same_numbers(a, b) && a is Some ==> a->0@ == b->0@,
        same_strings(x, y) ==> (x is Some <==> y is Some),
        same_strings(x, y) && x is Some ==> x->0@.len() == y->0@.len(),
        same_strings(x, y) && x is Some && 0 <= i < x->0@.len() ==> x->0@[i]@ == y->0@[i]@,
{
}

/// Bounds are read as the laws on bounds say.
pub proof fn law_bounds_are_read_by_the_laws(
    s: &str,
    r: Result<(usize, Option<usize>), &'static str>,
)
    requires
        call_ensures(parse_preflight_bounds, (s,), r),
    ensures
        r is Ok <==> preflight_bounds(s@) is Ok,
        r matches Ok((least, most)) ==> {
            &&& preflight_bounds(s@)->Ok_0.0 == least
            &&& most is Some <==> preflight_bounds(s@)->Ok_0.1 is Some
            &&& most matches Some(n) ==> preflight_bounds(s@)->Ok_0.1 == Some(n as nat)
        },
        r matches Err(message) ==> preflight_bounds(s@)->Err_0 == message@,
{
}

/// A list of numbers is read item by item: two lists with a comma between them are read
/// as the numbers of the first and then those of the second, one number is a list of
/// itself, and a list with a bad item is refused.
pub proof fn law_number_lists_are_read_item_by_item(
    whole: &str,
    first: &str,
    second: &str,
    r: Result<Vec<u16>, &'static str>,
    a: Result<Vec<u16>, &'static str>,
    b: Result<Vec<u16>, &'static str>,
    n: u16,
)
    requires
        whole@ == first@.push(',') + second@,
        call_ensures(parse_u16_array, (whole,), r),
        call_ensures(parse_u16_array, (first,), a),
        call_ensures(parse_u16_array, (second,), b),
    ensures
        r is Ok <==> a is Ok && b is Ok,
        r is Ok ==> r->Ok_0@ == a->Ok_0@ + b->Ok_0@,
        r matches Err(message) ==> message@ == "Not valid value"@,
        first@ == decimal_text(n as nat) ==> a is Ok && a->Ok_0@ == seq![n],
        !first@.contains(',') && parsed_number(first@, 65535) is None ==> a is Err,
{
    let left = split_on(first@, ',');
    let right = split_on(second@, ',');
    law_texts_are_split_at_every_separator(first@, second@, ',');
    law_number_lists_are_good_item_by_item(first@, second@, n as nat);
    if r is Ok {
        let numbers = r->Ok_0@;
        let both = a->Ok_0@ + b->Ok_0@;
        assert forall|i: int| 0 <= i < numbers.len() implies numbers[i] == both[i] by {
            assert(parsed_number((left + right)[i], 0xffff) == Some(numbers[i] as nat));
            if i < left.len() {
                assert(parsed_number(left[i], 0xffff) == Some(a->Ok_0@[i] as nat));
            } else {
                assert(parsed_number(right[i - left.len()], 0xffff) == Some(
                    b->Ok_0@[i - left.len()] as nat,
                ));
            }
        }
        assert(numbers =~= both);
    }
    if first@ == decimal_text(n as nat) {
        law_numbers_are_read_back(n as nat, 0xffff);
        assert forall|i: int| 0 <= i < first@.len() implies first@[i] != ',' by {
            law_decimal_forms_hold_digits_only(n as nat, i);
        }
        assert(left == seq![first@]);
        assert(parsed_number(left[0], 0xffff) == Some(a->Ok_0@[0] as nat));
        assert(a->Ok_0@ =~= seq![n]);
    }
}

/// A list of names is read item by item: two lists with a comma between them are read as
/// the names of the first and then those of the second, and a text without a comma is one
/// name, by its bytes. None is refused.
pub proof fn law_name_lists_are_read_item_by_item(
    whole: &str,
    first: &str,
    second: &str,
    r: Result<Vec<Vec<u8>>, &'static str>,
    a: Result<Vec<Vec<u8>>, &'static str>,
    b: Result<Vec<Vec<u8>>, &'static str>,
    i: int,
)
    requires
        whole@ == first@.push(',') + second@,
        call_ensures(parse_alpn_array, (whole,), r),
        call_ensures(parse_alpn_array, (first,), a),
        call_ensures(parse_alpn_array, (second,), b),
    ensures
        r is Ok && a is Ok && b is Ok,
        r->Ok_0@.len() == a->Ok_0@.len() + b->Ok_0@.len(),
        0 <= i < a->Ok_0@.len() ==> r->Ok_0@[i]@ == a->Ok_0@[i]@,
        0 <= i < b->Ok_0@.len() ==> r->Ok_0@[a->Ok_0@.len() + i]@ == b->Ok_0@[i]@,
        !first@.contains(',') ==> a->Ok_0@.len() == 1 && a->Ok_0@[0]@ == encode_utf8(first@),
{
    let left = split_on(first@, ',');
    let right = split_on(second@, ',');
    law_texts_are_split_at_every_separator(first@, second@, ',');
    let names = r->Ok_0@;
    if 0 <= i < left.len() {
        assert(names[i]@ == encode_utf8((left + right)[i]));
        assert(a->Ok_0@[i]@ == encode_utf8(left[i]));
    }
    if 0 <= i < right.len() {
        assert(names[left.len() + i]@ == encode_utf8((left + right)[left.len() + i]));
        assert(b->Ok_0@[i]@ == encode_utf8(right[i]));
    }
    if !first@.contains(',') {
        assert(a->Ok_0@[0]@ == encode_utf8(left[0]));
    }
}

/// Options that say the same agree in every single one, and so does a clone with what it
/// was cloned from.
pub proof fn law_the_same_options_agree_in_each(a: CltOpt, b: CltOpt)
    requires
        same_options(a, b),
    ensures
        a.listen_addr == b.listen_addr,
        a.remote_addr@ == b.remote_addr@,
        a.server_name@ == b.server_name@,
        a.key@ == b.key@,
        a.preflight == b.preflight,
        a.tls_ja3 == b.tls_ja3,
        same_strings(a.tls_alpn, b.tls_alpn),
        same_numbers(a.tls_sigalgos, b.tls_sigalgos),
        same_numbers(a.tls_versions, b.tls_versions),
        same_numbers(a.tls_keyshare, b.tls_keyshare),
        a.reuse == b.reuse,
        a.reuse_max_idle == b.reuse_max_idle,
        a.reuse_max_requests == b.reuse_max_requests,
        a.reuse_max_age == b.reuse_max_age,
        a.reuse_idle_timeout == b.reuse_idle_timeout,
        a.keepalive_interval == b.keepalive_interval,
        a.keepalive_timeout == b.keepalive_timeout,
        a.reuse_jitter_percent == b.reuse_jitter_percent,
{
}

} // verus!
