//! Symbols looked up at run time, so that the library loads on systems that
//! predate them: each is looked up once, and a missing one reports the
//! release that introduced it.

use vstd::prelude::*;
use vstd::string::StrSliceExecFns;

use crate::error::VTError;

verus! {

/// A name with every trailing NUL removed.
pub open spec fn spec_trim_nul(s: Seq<char>) -> Seq<char>
    decreases s.len(),
{
    if s.len() > 0 && s.last() == '\0' {
        spec_trim_nul(s.drop_last())
    } else {
        s
    }
}

/// The name without its trailing NULs.
fn trim_trailing_nul(s: &'static str) -> (r: &'static str)
    ensures
        r@ == spec_trim_nul(s@),
{
    let mut n: usize = s.unicode_len();
    assert(s@.subrange(0, n as int) =~= s@);
    loop
        invariant
            n <= s@.len(),
            spec_trim_nul(s@.subrange(0, n as int)) == spec_trim_nul(s@),
        ensures
            n <= s@.len(),
            spec_trim_nul(s@) == s@.subrange(0, n as int),
        decreases n,
    {
        if n == 0 {
            break;
        }
        if s.get_char(n - 1) != '\0' {
            break;
        }
        assert(s@.subrange(0, n as int).drop_last() =~= s@.subrange(0, n - 1));
        n = n - 1;
    }
    s.substring_char(0, n)
}

/// A run-time symbol: its NUL-terminated name, the first macOS release that
/// has it, and the address found for it once looked up (`0` when the
/// running system lacks it).
pub struct Symbol {
    name: &'static str,
    minimum: &'static str,
    address: Option<usize>,
}

/// The plain-value state of a [`Symbol`].
pub struct SymbolState {
    pub name: &'static str,
    pub minimum: &'static str,
    /// `None` until the symbol has been looked up.
    pub address: Option<usize>,
}

impl View for Symbol {
    type V = SymbolState;

    closed spec fn view(&self) -> SymbolState {
        SymbolState { name: self.name, minimum: self.minimum, address: self.address }
    }
}

/// The state after a resolution whose lookup (if one was made) found
/// `found`: a symbol already looked up keeps what it found.
pub open spec fn spec_after_lookup(st: SymbolState, found: usize) -> SymbolState {
    match st.address {
        Some(_) => st,
        None => SymbolState { address: Some(found), ..st },
    }
}

/// The address a looked-up symbol resolves to; none when it is missing from
/// the running system (or not looked up yet).
pub open spec fn spec_found(st: SymbolState) -> Option<usize> {
    match st.address {
        Some(a) if a != 0 => Some(a),
        _ => None,
    }
}

impl Symbol {
    /// A symbol not looked up yet.
    pub fn new(name: &'static str, minimum: &'static str) -> (r: Self)
        ensures
            r@.name == name,
            r@.minimum == minimum,
            r@.address is None,
    {
        Self { name, minimum, address: None }
    }

    /// Whether the symbol still has to be looked up.
    pub fn needs_lookup(&self) -> (r: bool)
        ensures
            r == self@.address is None,
    {
        self.address.is_none()
    }

    /// Resolves the symbol. The first call looks it up with `lookup` (given
    /// the NUL-terminated name; it returns `0` when the symbol is missing)
    /// and remembers the answer; later calls reuse it without looking up
    /// again.
    pub fn resolve<F: FnOnce(&'static str) -> usize>(&mut self, lookup: F) -> (r: Result<
        usize,
        VTError,
    >)
        requires
            old(self)@.address is None ==> lookup.requires((old(self)@.name,)),
        ensures
            old(self)@.address is Some ==> final(self)@ == old(self)@,
            old(self)@.address is None ==> exists|found: usize|
                #![trigger lookup.ensures((old(self)@.name,), found)]
                lookup.ensures((old(self)@.name,), found) && final(self)@ == spec_after_lookup(
                    old(self)@,
                    found,
                ),
            final(self)@.address is Some,
            r matches Ok(a) ==> spec_found(final(self)@) == Some(a),
            r is Err <==> spec_found(final(self)@) is None,
            r matches Err(e) ==> (e matches VTError::Unsupported { api, minimum } && api@
                == spec_trim_nul(final(self)@.name@) && minimum == final(self)@.minimum),
    {
        let address = match self.address {
            Some(a) => a,
            None => {
                let found = lookup(self.name);
                self.address = Some(found);
                found
            },
        };
        if address != 0 {
            Ok(address)
        } else {
            Err(VTError::Unsupported { api: trim_trailing_nul(self.name), minimum: self.minimum })
        }
    }
}

/// Once a symbol has been resolved, resolving it again looks nothing up and
/// gives the same outcome: whatever a second lookup would find is ignored.
pub proof fn lemma_resolution_is_remembered(st: SymbolState, first: usize, second: usize)
    ensures
        spec_after_lookup(spec_after_lookup(st, first), second) == spec_after_lookup(st, first),
        spec_found(spec_after_lookup(spec_after_lookup(st, first), second)) == spec_found(
            spec_after_lookup(st, first),
        ),
{
}

} // verus!
