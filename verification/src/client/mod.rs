//! The client's end of reusable sessions.

use vstd::prelude::*;

use crate::opt::{sound_config, CltOpt, ReuseConfig};

pub mod pool;

verus! {

/// How connections to the server come about.
#[derive(Debug, Clone, Copy)]
pub enum Connecting {
    /// One at a time, when it is asked for
    AdHoc,
    /// Some in advance: at least `least`, and at most `most` where there is a limit
    InAdvance { least: usize, most: Option<usize> },
}

/// What the client is to do.
#[derive(Debug, Clone, Copy)]
pub struct ClientPlan {
    pub connecting: Connecting,
    /// How sessions are pooled, if they are
    pub pool: Option<ReuseConfig>,
}

/// How connections come about with the given bounds on those made in advance.
pub open spec fn connecting_for(preflight: (usize, Option<usize>)) -> Connecting {
    if preflight == (0usize, Some(0usize)) {
        Connecting::AdHoc
    } else {
        Connecting::InAdvance { least: preflight.0, most: preflight.1 }
    }
}

/// Decides what the client is to do with the given options. Reuse settings that
/// break a rule are refused with that rule.
pub fn plan(opt: &CltOpt) -> (r: Result<ClientPlan, String>)
    ensures
        match r {
            Ok(plan) => {
                &&& plan.connecting == connecting_for(opt.preflight)
                &&& opt.reuse ==> opt.broken_reuse_rule() is None
                &&& match plan.pool {
                    Some(config) => opt.reuse && opt.has_reuse_settings(config) && sound_config(
                        config,
                    ),
                    None => !opt.reuse,
                }
            },
            Err(message) => opt.reuse && opt.broken_reuse_rule() == Some(message@),
        },
{
    let connecting = match opt.preflight {
        (0, Some(0)) => Connecting::AdHoc,
        (least, most) => Connecting::InAdvance { least, most },
    };
    match opt.reuse_config() {
        Ok(pool) => Ok(ClientPlan { connecting, pool }),
        Err(message) => Err(message),
    }
}

/// The most connections made in advance, as it is reported: a number also where
/// there is no limit.
pub fn reported_most(preflight: (usize, Option<usize>)) -> (r: usize)
    ensures
        r == match preflight.1 {
            Some(most) => most,
            None => usize::MAX,
        },
{
    match preflight.1 {
        Some(most) => most,
        None => usize::MAX,
    }
}

/// Connections are made when they are asked for exactly if none is to be made in
/// advance; otherwise as many are made in advance as the bounds say.
pub proof fn law_bounds_decide_how_to_connect(least: usize, most: Option<usize>)
    ensures
        connecting_for((least, most)) is AdHoc <==> least == 0 && most == Some(0usize),
        connecting_for((least, most)) !is AdHoc ==> connecting_for((least, most)) == (
        Connecting::InAdvance { least, most }),
{
}

/// The client plans to connect as its bounds say and to pool exactly with reuse, under
/// the settings of its options, and is refused for the rule that they break. Where there
/// is no limit on connections in advance, the largest number is reported.
pub proof fn law_clients_go_by_their_options(
    opt: &CltOpt,
    r: Result<ClientPlan, String>,
    preflight: (usize, Option<usize>),
    most: usize,
)
    ensures
        call_ensures(plan, (opt,), r) ==> {
            &&& r is Err <==> opt.reuse && opt.broken_reuse_rule() is Some
            &&& r matches Err(message) ==> opt.broken_reuse_rule() == Some(message@)
            &&& r matches Ok(plan) ==> {
                &&& plan.connecting is AdHoc <==> opt.preflight.0 == 0 && opt.preflight.1 == Some(
                    0usize,
                )
                &&& plan.connecting matches Connecting::InAdvance { least, most }
                    ==> opt.preflight == (least, most)
                &&& plan.pool is Some <==> opt.reuse
                &&& plan.pool matches Some(config) ==> opt.has_reuse_settings(config)
            }
        },
        call_ensures(reported_most, (preflight,), most) ==> {
            &&& preflight.1 matches Some(limit) ==> most == limit
            &&& preflight.1 is None ==> most == usize::MAX
        },
{
}

} // verus!
