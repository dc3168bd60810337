//! What the core knows about the hypervisor: the shape of an enumerated VM
//! and helpers for building command text. The imperative operations
//! themselves live outside the library, behind the adapter that `main`
//! supplies; the reconciler consumes their results as plain values.

use vstd::prelude::*;

use crate::strutil;

verus! {

/// The mathematical value of a [`HyperVInfo`] row.
pub struct HvInfoModel {
    pub name: Seq<char>,
    pub state: i32,
    pub memory_assigned: Option<u64>,
    pub uptime: Option<Seq<char>>,
    pub id: Option<Seq<char>>,
}

/// One VM as the hypervisor enumerates it: its name and its raw state code.
#[derive(Debug, Clone)]
pub struct HyperVInfo {
    pub name: String,
    pub state: i32,
    pub memory_assigned: Option<u64>,
    pub uptime: Option<String>,
    pub id: Option<String>,
}

impl View for HyperVInfo {
    type V = HvInfoModel;

    open spec fn view(&self) -> HvInfoModel {
        HvInfoModel {
            name: self.name@,
            state: self.state,
            memory_assigned: self.memory_assigned,
            uptime: self.uptime.deep_view(),
            id: self.id.deep_view(),
        }
    }
}

impl DeepView for HyperVInfo {
    type V = HvInfoModel;

    open spec fn deep_view(&self) -> HvInfoModel {
        self.view()
    }
}

/// The token for a raw hypervisor state code.
pub open spec fn raw_state_label(raw: i32) -> Seq<char> {
    if raw == 2 {
        "Off"@
    } else if raw == 3 {
        "Running"@
    } else if raw == 6 {
        "Saved"@
    } else if raw == 9 {
        "Paused"@
    } else {
        "Unknown"@
    }
}

impl HyperVInfo {
    /// The token for this row's raw state code.
    pub fn state_str(&self) -> (r: &'static str)
        ensures
            r@ == raw_state_label(self.state),
    {
        match self.state {
            2 => "Off",
            3 => "Running",
            6 => "Saved",
            9 => "Paused",
            _ => "Unknown",
        }
    }
}

/// The raw state of the first row with the given name, if any.
pub open spec fn listing_find(l: Seq<HvInfoModel>, name: Seq<char>) -> Option<i32>
    decreases l.len(),
{
    if l.len() == 0 {
        None
    } else if l.first().name == name {
        Some(l.first().state)
    } else {
        listing_find(l.drop_first(), name)
    }
}

/// The raw state of the first listed VM with the given name, if any.
pub fn find_in_listing(listing: &Vec<HyperVInfo>, name: &str) -> (r: Option<i32>)
    ensures
        r == listing_find(listing.deep_view(), name@),
{
    let ghost l = listing.deep_view();
    proof {
        assert(l.skip(0) =~= l);
    }
    let mut i: usize = 0;
    while i < listing.len()
        invariant
            l == listing.deep_view(),
            i <= l.len(),
            listing_find(l, name@) == listing_find(l.skip(i as int), name@),
        decreases l.len() - i,
    {
        proof {
            assert(l.skip(i as int).len() > 0);
            assert(l.skip(i as int).first() == l[i as int]);
            assert(l.skip(i as int).drop_first() =~= l.skip(i as int + 1));
        }
        if strutil::str_eq(strutil::as_str(&listing[i].name), name) {
            proof {
                assert(l[i as int].name == name@);
            }
            return Some(listing[i].state);
        }
        i = i + 1;
    }
    proof {
        assert(l.skip(l.len() as int).len() == 0);
    }
    None
}

/// How one character is escaped inside a single-quoted string: a quote is
/// doubled, everything else passes through.
pub open spec fn esc_char(c: char) -> Seq<char> {
    if c == '\'' {
        seq!['\'', '\'']
    } else {
        seq![c]
    }
}

/// The whole string, escaped character by character.
pub open spec fn escape_ps_seq(s: Seq<char>) -> Seq<char>
    decreases s.len(),
{
    if s.len() == 0 {
        Seq::empty()
    } else {
        escape_ps_seq(s.drop_last()) + esc_char(s.last())
    }
}

/// Escape a string for use inside a single-quoted command argument.
pub fn escape_ps(s: &str) -> (r: String)
    ensures
        r@ == escape_ps_seq(s@),
{
    let n = s.unicode_len();
    let mut r = String::new();
    proof {
        assert(s@.subrange(0, 0) =~= Seq::<char>::empty());
        assert(r@ =~= escape_ps_seq(s@.subrange(0, 0)));
    }
    let mut i: usize = 0;
    while i < n
        invariant
            n == s@.len(),
            i <= n,
            r@ == escape_ps_seq(s@.subrange(0, i as int)),
        decreases n - i,
    {
        proof {
            assert(s@.subrange(0, i as int + 1).drop_last() =~= s@.subrange(0, i as int));
            assert(s@.subrange(0, i as int + 1).last() == s@[i as int]);
        }
        if s.get_char(i) == '\'' {
            r.append("''");
            proof {
                reveal_strlit("''");
                assert("''"@ =~= esc_char(s@[i as int]));
            }
        } else {
            let piece = s.substring_char(i, i + 1);
            r.append(piece);
            proof {
                assert(piece@ =~= esc_char(s@[i as int]));
            }
        }
        i = i + 1;
    }
    proof {
        assert(s@.subrange(0, n as int) =~= s@);
    }
    r
}

} // verus!
