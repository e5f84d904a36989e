//! The SQL dialect of Microsoft SQL Server.

use vstd::prelude::*;

verus! {

/// The SQL Server dialect, named by its one value.
#[derive(Clone, Copy, PartialEq, Eq, Structural, Debug)]
pub enum Dialect {
    SqlServer,
}

impl Dialect {
    /// Identifiers are quoted in square brackets.
    pub fn ident_esc() -> (esc: (&'static str, &'static str))
        ensures
            esc.0@ == "["@,
            esc.1@ == "]"@,
    {
        proof {
            reveal_strlit("[");
            reveal_strlit("]");
        }
        ("[", "]")
    }

    /// Writes a bind parameter as `@name`; its ordinal plays no part.
    pub fn fmt_bind_param(out: &mut String, name: &str, ordinal: u32)
        ensures
            final(out)@ == old(out)@ + "@"@ + name@,
    {
        proof {
            reveal_strlit("@");
        }
        out.append("@");
        out.append(name);
    }
}

} // verus!
