//! Service labels and their normalization into a systemd unit name.

use vstd::prelude::*;

verus! {

/// `c` with an ASCII capital letter lowered and every other character kept.
pub open spec fn lower_char(c: char) -> char {
    if 65 <= c as u32 && c as u32 <= 90 {
        (((c as u32) + 32) as u8) as char
    } else {
        c
    }
}

/// The characters a derived unit name may contain.
pub open spec fn is_safe_char(c: char) -> bool {
    ('a' <= c && c <= 'z') || ('0' <= c && c <= '9') || c == '-' || c == '.' || c == '_'
}

/// One label character normalized: lower-cased if an ASCII capital, kept if in
/// the safe set, and replaced by `-` otherwise.
pub open spec fn normal_char(c: char) -> char {
    if is_safe_char(lower_char(c)) {
        lower_char(c)
    } else {
        '-'
    }
}

/// The unit name derived from a label: every character normalized, one for one.
pub open spec fn spec_script_name(label: Seq<char>) -> Seq<char> {
    label.map_values(|c: char| normal_char(c))
}

/// A caller-chosen logical name for a service. The supervisor-facing unit name
/// is derived from it by [`ServiceLabel::to_script_name`].
#[derive(Clone, Debug, PartialEq, Eq)]
pub struct ServiceLabel {
    /// The label as the caller wrote it.
    pub name: String,
}

impl View for ServiceLabel {
    type V = Seq<char>;

    open spec fn view(&self) -> Seq<char> {
        self.name@
    }
}

impl ServiceLabel {
    /// Wraps a caller-chosen name as a label.
    pub fn new(name: String) -> (r: Self)
        ensures
            r@ == name@,
    {
        ServiceLabel { name }
    }

    /// Derives the systemd unit name for this label: deterministic, lower-cased,
    /// and restricted to a safe character set.
    pub fn to_script_name(&self) -> (r: String)
        ensures
            r@ == spec_script_name(self@),
    {
        let s = self.name.as_str();
        let n = s.unicode_len();
        let mut r = String::new();
        let mut i: usize = 0;
        while i < n
            invariant
                i <= n,
                n == s@.len(),
                s@ == self@,
                r@ == spec_script_name(self@.take(i as int)),
            decreases n - i,
        {
            let c = s.get_char(i);
            let u: u32 = c as u32;
            if 65 <= u && u <= 90 {
                r.push(((u + 32) as u8) as char);
            } else if (97 <= u && u <= 122) || (48 <= u && u <= 57) || u == 45 || u == 46
                || u == 95 {
                r.push(c);
            } else {
                r.push('-');
            }
            proof {
                assert(self@.take(i + 1).map_values(|ch: char| normal_char(ch))
                    =~= self@.take(i as int).map_values(|ch: char| normal_char(ch)).push(
                    normal_char(self@[i as int])));
            }
            i = i + 1;
        }
        proof {
            assert(self@.take(n as int) =~= self@);
        }
        r
    }
}

} // verus!
