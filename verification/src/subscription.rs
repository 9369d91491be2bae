use vstd::prelude::*;
use crate::config::Config;

verus! {

/// How finalized an observed event must be before it is reported.
/// `Processed` is the fastest and least final.
#[derive(Debug, Clone, Copy, PartialEq, Eq, Structural)]
pub enum CommitmentLevel {
    Processed,
    Confirmed,
    Finalized,
}

/// The one filter descriptor this client ever sends: which addresses a
/// transaction must touch to be reported, whether vote and failed
/// transactions are included, and at which commitment level events are
/// observed. Built once, sent once, never mutated after transmission.
#[derive(Debug, Clone, PartialEq)]
pub struct SubscriptionDescriptor {
    pub required_addresses: Vec<String>,
    pub include_votes: bool,
    pub include_failed: bool,
    pub commitment: CommitmentLevel,
}

/// The set of addresses a descriptor requires. A message matches the
/// subscription when it touches any address in this set (logical OR).
pub open spec fn required_set(d: SubscriptionDescriptor) -> Set<Seq<char>> {
    Set::new(
        |a: Seq<char>|
            exists|i: int| 0 <= i < d.required_addresses@.len() && d.required_addresses@[i]@ == a,
    )
}

impl SubscriptionDescriptor {
    /// A descriptor is well-formed when it requires at least one address:
    /// an empty required set would subscribe to nothing.
    pub open spec fn is_well_formed(self) -> bool {
        self.required_addresses@.len() > 0
    }
}

/// Build the single subscription descriptor from the settings: it requires
/// exactly the monitored fee account and the monitored program address
/// (matching either suffices), filters vote and failed transactions out at
/// the source, and asks for `Processed` commitment, trading finality for
/// timeliness.
pub fn build_subscription(cfg: &Config) -> (d: SubscriptionDescriptor)
    ensures
        d.is_well_formed(),
        d.required_addresses@.len() == 2,
        d.required_addresses@[0]@ == cfg.pump_fun_fee_account@,
        d.required_addresses@[1]@ == cfg.pump_fun_program@,
        required_set(d) == set![cfg.pump_fun_fee_account@, cfg.pump_fun_program@],
        !d.include_votes,
        !d.include_failed,
        d.commitment is Processed,
{
    let mut required_addresses: Vec<String> = Vec::new();
    required_addresses.push(cfg.pump_fun_fee_account.clone());
    required_addresses.push(cfg.pump_fun_program.clone());
    let d = SubscriptionDescriptor {
        required_addresses,
        include_votes: false,
        include_failed: false,
        commitment: CommitmentLevel::Processed,
    };
    proof {
        let target = set![cfg.pump_fun_fee_account@, cfg.pump_fun_program@];
        assert forall|a: Seq<char>| required_set(d).contains(a) implies target.contains(a) by {
            let i = choose|i: int|
                0 <= i < d.required_addresses@.len() && d.required_addresses@[i]@ == a;
            assert(i == 0 || i == 1);
        }
        assert forall|a: Seq<char>| target.contains(a) implies required_set(d).contains(a) by {
            if a == cfg.pump_fun_fee_account@ {
                assert(d.required_addresses@[0]@ == a);
            } else {
                assert(d.required_addresses@[1]@ == a);
            }
        }
        assert(required_set(d) =~= target);
    }
    d
}

} // verus!
