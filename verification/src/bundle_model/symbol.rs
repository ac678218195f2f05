//! Representation of LV2 symbols.

use vstd::prelude::*;
use vstd::string::StrSliceExecFns;

verus! {

/// True if `c` may open an LV2 symbol: an ASCII letter or an underscore.
pub open spec fn is_symbol_start_char(c: char) -> bool {
    ||| c == '_'
    ||| ('a' as u32) <= (c as u32) <= ('z' as u32)
    ||| ('A' as u32) <= (c as u32) <= ('Z' as u32)
}

/// True if `c` may continue an LV2 symbol: an ASCII letter, an ASCII digit,
/// or an underscore.
pub open spec fn is_symbol_char(c: char) -> bool {
    ||| is_symbol_start_char(c)
    ||| ('0' as u32) <= (c as u32) <= ('9' as u32)
}

/// The allowed syntax for an LV2 symbol: nonempty, opened by a letter or an
/// underscore, continued by letters, digits or underscores.
pub open spec fn is_valid_symbol_str(s: Seq<char>) -> bool {
    &&& s.len() > 0
    &&& is_symbol_start_char(s[0])
    &&& forall|i: int| 1 <= i < s.len() ==> is_symbol_char(#[trigger] s[i])
}

/// Decides whether `c` may open an LV2 symbol.
fn char_is_symbol_start(c: char) -> (r: bool)
    ensures
        r == is_symbol_start_char(c),
{
    let u: u32 = c as u32;
    c == '_' || (97 <= u && u <= 122) || (65 <= u && u <= 90)
}

/// Decides whether `c` may continue an LV2 symbol.
fn char_is_symbol(c: char) -> (r: bool)
    ensures
        r == is_symbol_char(c),
{
    let u: u32 = c as u32;
    char_is_symbol_start(c) || (48 <= u && u <= 57)
}

/// Represents an LV2 symbol.  In LV2, a symbol is a machine-readable and
/// human-readable string that identifies an entity, such as a port or plugin.
#[derive(Debug, Clone)]
pub struct Symbol {
    /// The raw symbol string.  The constructor guarantees it is a valid LV2
    /// symbol string.
    string: String,
}

impl View for Symbol {
    type V = Seq<char>;

    closed spec fn view(&self) -> Seq<char> {
        self.string@
    }
}

impl Symbol {
    /// Constructs a new LV2 symbol from the raw symbol literal value.
    /// Returns an error exactly when `string` is not a valid LV2 symbol
    /// string.
    pub fn new(string: String) -> (r: Result<Symbol, ()>)
        ensures
            r is Ok <==> is_valid_symbol_str(string@),
            r matches Ok(sym) ==> sym@ == string@,
    {
        let s = string.as_str();
        let n = s.unicode_len();
        if n == 0 {
            return Err(());
        }
        if !char_is_symbol_start(s.get_char(0)) {
            return Err(());
        }
        let mut i: usize = 1;
        while i < n
            invariant
                1 <= i <= n,
                n == string@.len(),
                s@ == string@,
                forall|k: int| 1 <= k < i ==> is_symbol_char(#[trigger] string@[k]),
            decreases n - i,
        {
            if !char_is_symbol(s.get_char(i)) {
                return Err(());
            }
            i += 1;
        }
        Ok(Symbol { string })
    }

    /// Gets the raw symbol string.  The returned string is a valid LV2 symbol
    /// string.
    pub fn string(&self) -> (r: &str)
        ensures
            r@ == self@,
    {
        self.string.as_str()
    }
}

} // verus!
