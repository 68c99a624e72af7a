//! Typed endpoint identifiers, one variant per transport kind, with a
//! stable display form that parses back to the same address.

use vstd::prelude::*;
use vstd::string::StrSliceExecFns;
use vstd::string::StringExecFns;

verus! {

/// The transport kind an address belongs to.
#[derive(Clone, Copy, PartialEq, Eq, Structural, Debug)]
pub enum AddressType {
    /// Relay-server transport.
    Grinbox,
    /// Direct peer-to-peer messaging transport.
    Keybase,
}

/// An endpoint identifier: the transport kind plus the bare endpoint name.
/// Values are immutable and freely copyable; there is no shared state.
#[derive(Clone, Debug)]
pub enum Address {
    Grinbox { id: String },
    Keybase { id: String },
}

/// The mathematical model of an address: its kind and the characters of
/// its bare endpoint name.
pub struct AddressView {
    pub kind: AddressType,
    pub id: Seq<char>,
}

impl View for Address {
    type V = AddressView;

    open spec fn view(&self) -> AddressView {
        match self {
            Address::Grinbox { id } => AddressView { kind: AddressType::Grinbox, id: id@ },
            Address::Keybase { id } => AddressView { kind: AddressType::Keybase, id: id@ },
        }
    }
}

/// The scheme that opens the display form of an address of this kind.
pub open spec fn kind_prefix(kind: AddressType) -> Seq<char> {
    match kind {
        AddressType::Grinbox => "grinbox://"@,
        AddressType::Keybase => "keybase://"@,
    }
}

/// The canonical display form: the kind's scheme followed by the bare name.
pub open spec fn spec_display(v: AddressView) -> Seq<char> {
    kind_prefix(v.kind) + v.id
}

/// What parsing a display form yields: the address whose scheme opens the
/// string, with the remainder as its bare name, or nothing.
pub open spec fn spec_parse(s: Seq<char>) -> Option<AddressView> {
    if s.len() >= 10 && s.subrange(0, 10) == "grinbox://"@ {
        Some(AddressView { kind: AddressType::Grinbox, id: s.subrange(10, s.len() as int) })
    } else if s.len() >= 10 && s.subrange(0, 10) == "keybase://"@ {
        Some(AddressView { kind: AddressType::Keybase, id: s.subrange(10, s.len() as int) })
    } else {
        None
    }
}

/// Whether `p` is the opening of `s`, compared character by character.
fn prefix_matches(s: &str, p: &str) -> (r: bool)
    requires
        p@.len() <= s@.len(),
    ensures
        r == (s@.subrange(0, p@.len() as int) == p@),
{
    let pn = p.unicode_len();
    let mut i: usize = 0;
    while i < pn
        invariant
            i <= pn,
            pn == p@.len(),
            p@.len() <= s@.len(),
            forall|j: int| 0 <= j < i ==> s@[j] == p@[j],
        decreases pn - i,
    {
        if s.get_char(i) != p.get_char(i) {
            proof {
                let sub = s@.subrange(0, p@.len() as int);
                assert(sub[i as int] == s@[i as int]);
                assert(sub[i as int] != p@[i as int]);
            }
            return false;
        }
        i = i + 1;
    }
    proof {
        assert(s@.subrange(0, p@.len() as int) =~= p@);
    }
    true
}

impl Address {
    /// The transport kind this address belongs to.
    pub fn address_type(&self) -> (t: AddressType)
        ensures
            t == self@.kind,
    {
        match self {
            Address::Grinbox { .. } => AddressType::Grinbox,
            Address::Keybase { .. } => AddressType::Keybase,
        }
    }

    /// The bare endpoint name, without the transport scheme.
    pub fn stripped(&self) -> (r: String)
        ensures
            r@ == self@.id,
    {
        match self {
            Address::Grinbox { id } => id.clone(),
            Address::Keybase { id } => id.clone(),
        }
    }

    /// The canonical display form of this address.
    pub fn display_string(&self) -> (r: String)
        ensures
            r@ == spec_display(self@),
    {
        match self {
            Address::Grinbox { id } => {
                let mut r = "grinbox://".to_owned();
                r.append(id.as_str());
                r
            },
            Address::Keybase { id } => {
                let mut r = "keybase://".to_owned();
                r.append(id.as_str());
                r
            },
        }
    }

    /// Parse a display form back into an address.
    pub fn from_str(s: &str) -> (r: Option<Address>)
        ensures
            match r {
                Some(a) => spec_parse(s@) == Some(a@),
                None => spec_parse(s@) is None,
            },
    {
        let n = s.unicode_len();
        proof {
            reveal_strlit("grinbox://");
            reveal_strlit("keybase://");
        }
        if n < 10 {
            return None;
        }
        if prefix_matches(s, "grinbox://") {
            let id = s.substring_char(10, n).to_owned();
            Some(Address::Grinbox { id })
        } else if prefix_matches(s, "keybase://") {
            let id = s.substring_char(10, n).to_owned();
            Some(Address::Keybase { id })
        } else {
            None
        }
    }
}

/// The display form of an address is stable and parses back to the same
/// address, whatever its kind and bare name.
pub proof fn lemma_address_round_trip(v: AddressView)
    ensures
        spec_parse(spec_display(v)) == Some(v),
{
    reveal_strlit("grinbox://");
    reveal_strlit("keybase://");
    let g = "grinbox://"@;
    let k = "keybase://"@;
    let s = spec_display(v);
    match v.kind {
        AddressType::Grinbox => {
            assert(s.subrange(0, 10) =~= g);
            assert(s.subrange(10, s.len() as int) =~= v.id);
        },
        AddressType::Keybase => {
            assert(s.subrange(0, 10) =~= k);
            assert(s.subrange(10, s.len() as int) =~= v.id);
            assert(s.subrange(0, 10) != g) by {
                assert(k[0] == 'k' && g[0] == 'g');
            }
        },
    }
}

} // verus!
