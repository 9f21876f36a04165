//! The recognized array-like environments.

use vstd::prelude::*;
use vstd::string::*;
use vstd::utf8::is_ascii_chars;
use vstd::utf8::is_ascii_chars_encode_utf8;

verus! {

/// An environment that lays its contents out as an array.
#[derive(Debug, Clone, Copy, PartialEq, Eq, Structural)]
pub enum Environment {
    /// A plain array with explicit column formatting.
    Array,
    /// A matrix without delimiters.
    Matrix,
    /// A matrix in parentheses.
    PMatrix,
    /// A matrix in square brackets.
    BMatrix,
    /// A matrix in curly braces.
    BbMatrix,
    /// A matrix between vertical bars.
    VMatrix,
    /// A matrix between double vertical bars.
    VvMatrix,
}

/// Vertical positioning of an array against the baseline.
#[derive(Debug, Clone, Copy, PartialEq, Eq, Structural)]
pub enum ArrayVerticalAlign {
    /// Centered on the axis.
    Centered,
    /// Top row aligned with the baseline.
    Top,
    /// Bottom row aligned with the baseline.
    Bottom,
}

impl Default for ArrayVerticalAlign {
    /// Arrays are centered unless asked otherwise.
    fn default() -> (r: ArrayVerticalAlign)
        ensures
            r == ArrayVerticalAlign::Centered,
    {
        ArrayVerticalAlign::Centered
    }
}

/// The name of an environment, as the UTF-8 bytes that select it.
pub open spec fn environment_name_bytes(e: Environment) -> Seq<u8> {
    match e {
        Environment::Array => seq![97u8, 114u8, 114u8, 97u8, 121u8],
        Environment::Matrix => seq![109u8, 97u8, 116u8, 114u8, 105u8, 120u8],
        Environment::PMatrix => seq![112u8, 109u8, 97u8, 116u8, 114u8, 105u8, 120u8],
        Environment::BMatrix => seq![98u8, 109u8, 97u8, 116u8, 114u8, 105u8, 120u8],
        Environment::BbMatrix => seq![66u8, 109u8, 97u8, 116u8, 114u8, 105u8, 120u8],
        Environment::VMatrix => seq![118u8, 109u8, 97u8, 116u8, 114u8, 105u8, 120u8],
        Environment::VvMatrix => seq![86u8, 109u8, 97u8, 116u8, 114u8, 105u8, 120u8],
    }
}


/// The environment a byte spelling selects, if any.
pub open spec fn environment_of_bytes(bs: Seq<u8>) -> Option<Environment> {
    if bs == environment_name_bytes(Environment::Array) {
        Some(Environment::Array)
    } else
    if bs == environment_name_bytes(Environment::Matrix) {
        Some(Environment::Matrix)
    } else
    if bs == environment_name_bytes(Environment::PMatrix) {
        Some(Environment::PMatrix)
    } else
    if bs == environment_name_bytes(Environment::BMatrix) {
        Some(Environment::BMatrix)
    } else
    if bs == environment_name_bytes(Environment::BbMatrix) {
        Some(Environment::BbMatrix)
    } else
    if bs == environment_name_bytes(Environment::VMatrix) {
        Some(Environment::VMatrix)
    } else
    if bs == environment_name_bytes(Environment::VvMatrix) {
        Some(Environment::VvMatrix)
    } else {
        None
    }
}

/// Whether two byte slices hold the same bytes.
fn bytes_eq(a: &[u8], b: &[u8]) -> (r: bool)
    ensures
        r == (a@ == b@),
{
    if a.len() != b.len() {
        proof {
            assert(a@.len() != b@.len());
        }
        return false;
    }
    let n: usize = a.len();
    let mut i: usize = 0;
    while i < n
        invariant
            i <= n,
            a@.len() == n,
            b@.len() == n,
            forall|j: int| 0 <= j < i ==> a@[j] == b@[j],
        decreases n - i,
    {
        if a[i] != b[i] {
            return false;
        }
        i = i + 1;
    }
    proof {
        assert(a@ =~= b@);
    }
    true
}


/// The byte spelling of each environment-selecting string literal.
proof fn lemma_environment_literals()
    ensures
        "array".spec_bytes() == environment_name_bytes(Environment::Array),
        "matrix".spec_bytes() == environment_name_bytes(Environment::Matrix),
        "pmatrix".spec_bytes() == environment_name_bytes(Environment::PMatrix),
        "bmatrix".spec_bytes() == environment_name_bytes(Environment::BMatrix),
        "Bmatrix".spec_bytes() == environment_name_bytes(Environment::BbMatrix),
        "vmatrix".spec_bytes() == environment_name_bytes(Environment::VMatrix),
        "Vmatrix".spec_bytes() == environment_name_bytes(Environment::VvMatrix),
{
    reveal_strlit("array");
    assert(is_ascii_chars("array"@));
    is_ascii_chars_encode_utf8("array"@);
    assert("array".spec_bytes() =~= seq![97u8, 114u8, 114u8, 97u8, 121u8]);
    reveal_strlit("matrix");
    assert(is_ascii_chars("matrix"@));
    is_ascii_chars_encode_utf8("matrix"@);
    assert("matrix".spec_bytes() =~= seq![109u8, 97u8, 116u8, 114u8, 105u8, 120u8]);
    reveal_strlit("pmatrix");
    assert(is_ascii_chars("pmatrix"@));
    is_ascii_chars_encode_utf8("pmatrix"@);
    assert("pmatrix".spec_bytes() =~= seq![112u8, 109u8, 97u8, 116u8, 114u8, 105u8, 120u8]);
    reveal_strlit("bmatrix");
    assert(is_ascii_chars("bmatrix"@));
    is_ascii_chars_encode_utf8("bmatrix"@);
    assert("bmatrix".spec_bytes() =~= seq![98u8, 109u8, 97u8, 116u8, 114u8, 105u8, 120u8]);
    reveal_strlit("Bmatrix");
    assert(is_ascii_chars("Bmatrix"@));
    is_ascii_chars_encode_utf8("Bmatrix"@);
    assert("Bmatrix".spec_bytes() =~= seq![66u8, 109u8, 97u8, 116u8, 114u8, 105u8, 120u8]);
    reveal_strlit("vmatrix");
    assert(is_ascii_chars("vmatrix"@));
    is_ascii_chars_encode_utf8("vmatrix"@);
    assert("vmatrix".spec_bytes() =~= seq![118u8, 109u8, 97u8, 116u8, 114u8, 105u8, 120u8]);
    reveal_strlit("Vmatrix");
    assert(is_ascii_chars("Vmatrix"@));
    is_ascii_chars_encode_utf8("Vmatrix"@);
    assert("Vmatrix".spec_bytes() =~= seq![86u8, 109u8, 97u8, 116u8, 114u8, 105u8, 120u8]);
}

impl Environment {
    /// The environment a name selects: exactly the one whose name the
    /// argument's bytes spell, and nothing for any other argument.
    pub fn try_from_str(name: &str) -> (r: Option<Environment>)
        ensures
            r == environment_of_bytes(name.spec_bytes()),
    {
        let b = name.as_bytes();
        if bytes_eq(b, "array".as_bytes()) {
            proof {
                lemma_environment_literals();
            }
            Some(Environment::Array)
        } else if bytes_eq(b, "matrix".as_bytes()) {
            proof {
                lemma_environment_literals();
            }
            Some(Environment::Matrix)
        } else if bytes_eq(b, "pmatrix".as_bytes()) {
            proof {
                lemma_environment_literals();
            }
            Some(Environment::PMatrix)
        } else if bytes_eq(b, "bmatrix".as_bytes()) {
            proof {
                lemma_environment_literals();
            }
            Some(Environment::BMatrix)
        } else if bytes_eq(b, "Bmatrix".as_bytes()) {
            proof {
                lemma_environment_literals();
            }
            Some(Environment::BbMatrix)
        } else if bytes_eq(b, "vmatrix".as_bytes()) {
            proof {
                lemma_environment_literals();
            }
            Some(Environment::VMatrix)
        } else if bytes_eq(b, "Vmatrix".as_bytes()) {
            proof {
                lemma_environment_literals();
            }
            Some(Environment::VvMatrix)
        } else {
            proof {
                lemma_environment_literals();
            }
            None
        }
    }
}

} // verus!
