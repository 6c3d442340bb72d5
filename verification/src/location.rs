use vstd::prelude::*;
use vstd::string::StrSliceExecFns;

verus! {

/// One address of one of the machine's network interfaces, as text.
#[derive(Clone, Debug)]
pub struct InterfaceAddress {
    pub is_loopback: bool,
    pub ip: String,
}

/// Addresses of the private 192.168.0.0/16 range start with this text.
pub open spec fn private_prefix() -> Seq<char> {
    "192.168"@
}

/// The address may be shown to the outside world: it is neither a loopback
/// address nor one of the 192.168 private range.
pub open spec fn is_candidate(address: InterfaceAddress) -> bool {
    !address.is_loopback && !private_prefix().is_prefix_of(address.ip@)
}

/// The last candidate address of `addresses`, if any.
pub open spec fn last_candidate(addresses: Seq<InterfaceAddress>) -> Option<Seq<char>>
    decreases addresses.len(),
{
    if addresses.len() == 0 {
        None
    } else if is_candidate(addresses.last()) {
        Some(addresses.last().ip@)
    } else {
        last_candidate(addresses.drop_last())
    }
}

/// The address kept from a list is the one of greatest index that is neither
/// loopback nor in the 192.168 range; none is kept exactly when no address
/// qualifies.
pub proof fn lemma_last_candidate_is_the_latest_qualifying(addresses: Seq<InterfaceAddress>)
    ensures
        last_candidate(addresses) is None <==> forall|i: int|
            0 <= i < addresses.len() ==> !is_candidate(#[trigger] addresses[i]),
        forall|i: int|
            0 <= i < addresses.len() && is_candidate(#[trigger] addresses[i]) && (forall|j: int|
                i < j < addresses.len() ==> !is_candidate(addresses[j])) ==> last_candidate(
                addresses,
            ) == Some(addresses[i].ip@),
    decreases addresses.len(),
{
    if addresses.len() > 0 {
        let rest = addresses.drop_last();
        lemma_last_candidate_is_the_latest_qualifying(rest);
        let n = addresses.len() - 1;
        assert forall|i: int| 0 <= i < rest.len() implies rest[i] == addresses[i] by {}
        if is_candidate(addresses[n]) {
            assert forall|i: int|
                0 <= i < addresses.len() && is_candidate(#[trigger] addresses[i]) && (forall|j: int|
                    i < j < addresses.len() ==> !is_candidate(addresses[j])) implies last_candidate(
                addresses,
            ) == Some(addresses[i].ip@) by {
                if i < n {
                    assert(!is_candidate(addresses[n]));
                }
            }
        } else {
            assert forall|i: int|
                0 <= i < addresses.len() && is_candidate(#[trigger] addresses[i]) && (forall|j: int|
                    i < j < addresses.len() ==> !is_candidate(addresses[j])) implies last_candidate(
                addresses,
            ) == Some(addresses[i].ip@) by {
                assert(i < n);
                assert(rest[i] == addresses[i]);
                assert forall|j: int| i < j < rest.len() implies !is_candidate(rest[j]) by {
                    assert(rest[j] == addresses[j]);
                }
            }
            if last_candidate(addresses) is None {
                assert forall|i: int| 0 <= i < addresses.len() implies !is_candidate(
                    #[trigger] addresses[i],
                ) by {
                    if i < n {
                        assert(rest[i] == addresses[i]);
                    }
                }
            }
        }
    }
}

/// Tells whether `ip` starts with "192.168".
pub fn has_private_prefix(ip: &str) -> (private: bool)
    ensures
        private == private_prefix().is_prefix_of(ip@),
{
    let prefix = "192.168";
    proof {
        reveal_strlit("192.168");
    }
    let plen = prefix.unicode_len();
    let len = ip.unicode_len();
    if len < plen {
        return false;
    }
    let mut i: usize = 0;
    while i < plen
        invariant
            plen == prefix@.len(),
            prefix@ == private_prefix(),
            len == ip@.len(),
            plen <= len,
            i <= plen,
            forall|j: int| 0 <= j < i ==> prefix@[j] == ip@[j],
        decreases plen - i,
    {
        if prefix.get_char(i) != ip.get_char(i) {
            assert(prefix@ != ip@.subrange(0, plen as int)) by {
                assert(prefix@[i as int] != ip@.subrange(0, plen as int)[i as int]);
            }
            return false;
        }
        i = i + 1;
    }
    assert(prefix@ =~= ip@.subrange(0, plen as int));
    true
}

/// The address to report as the machine's public one: the last address that
/// is neither a loopback address nor in the 192.168 private range.
pub fn select_public_ip(addresses: &Vec<InterfaceAddress>) -> (ip: Option<String>)
    ensures
        match ip {
            Some(s) => last_candidate(addresses@) == Some(s@),
            None => last_candidate(addresses@) is None,
        },
        ip is None <==> forall|i: int|
            0 <= i < addresses@.len() ==> !is_candidate(#[trigger] addresses@[i]),
        forall|i: int|
            0 <= i < addresses@.len() && is_candidate(#[trigger] addresses@[i]) && (forall|j: int|
                i < j < addresses@.len() ==> !is_candidate(addresses@[j])) ==> (ip matches Some(s)
                && s@ == addresses@[i].ip@),
{
    proof {
        lemma_last_candidate_is_the_latest_qualifying(addresses@);
    }
    let mut chosen: Option<String> = None;
    let mut i: usize = 0;
    while i < addresses.len()
        invariant
            i <= addresses@.len(),
            match chosen {
                Some(s) => last_candidate(addresses@.take(i as int)) == Some(s@),
                None => last_candidate(addresses@.take(i as int)) is None,
            },
        decreases addresses@.len() - i,
    {
        let address = &addresses[i];
        assert(addresses@.take(i + 1).drop_last() =~= addresses@.take(i as int));
        assert(addresses@.take(i + 1).last() == addresses@[i as int]);
        if !address.is_loopback && !has_private_prefix(address.ip.as_str()) {
            chosen = Some(address.ip.clone());
        }
        i = i + 1;
    }
    assert(addresses@.take(addresses@.len() as int) =~= addresses@);
    chosen
}

} // verus!
