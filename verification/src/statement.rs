//! The typed `OPTION` directive and its canonical rendering.

use vstd::prelude::*;
use vstd::string::StringExecFns;
use crate::text::is_identifier;

verus! {

/// The keyword that opens the directive.
pub open spec fn kw_option() -> Seq<char> {
    seq!['O', 'P', 'T', 'I', 'O', 'N']
}

/// The boolean literal that turns the option on.
pub open spec fn kw_true() -> Seq<char> {
    seq!['T', 'R', 'U', 'E']
}

/// The boolean literal that turns the option off.
pub open spec fn kw_false() -> Seq<char> {
    seq!['F', 'A', 'L', 'S', 'E']
}

/// One parsed `OPTION` directive: the option's name and whether it is
/// being turned on (`what == true`) or off.
///
/// Absence of an explicit value in the source text resolves to `true`
/// at parse time; a constructed directive always carries a concrete
/// boolean.
#[derive(Clone, Debug, PartialEq, Eq)]
pub struct OptionStatement {
    pub name: String,
    pub what: bool,
}

/// Canonical text of a directive: `OPTION <name>` when the option is on
/// (the implicit default), `OPTION <name> = FALSE` when it is off.
pub open spec fn render_spec(name: Seq<char>, what: bool) -> Seq<char> {
    if what {
        kw_option() + seq![' '] + name
    } else {
        kw_option() + seq![' '] + name + seq![' ', '=', ' '] + kw_false()
    }
}

impl OptionStatement {
    /// The name obeys the identifier lexical rule.
    pub open spec fn wf(self) -> bool {
        is_identifier(self.name@)
    }

    /// Render the directive in canonical form.
    ///
    /// `true` is the implicit state and is rendered without the
    /// assignment clause; `false` is always rendered explicitly, so that
    /// re-parsing reproduces the same `what`.
    pub fn render(&self) -> (r: String)
        ensures
            r@ == render_spec(self.name@, self.what),
    {
        let mut out = String::from_str("OPTION ");
        proof {
            reveal_strlit("OPTION ");
            assert("OPTION "@ =~= kw_option() + seq![' ']);
        }
        out.append(self.name.as_str());
        if !self.what {
            out.append(" = FALSE");
            proof {
                reveal_strlit(" = FALSE");
                assert(" = FALSE"@ =~= seq![' ', '=', ' '] + kw_false());
                assert(out@ =~= render_spec(self.name@, self.what));
            }
        } else {
            proof {
                assert(out@ =~= render_spec(self.name@, self.what));
            }
        }
        out
    }
}

impl Default for OptionStatement {
    /// An empty name with the option off, as an uninitialised field
    /// would hold it; not a well-formed directive.
    fn default() -> (r: Self)
        ensures
            r.name@ == Seq::<char>::empty(),
            r.what == false,
    {
        OptionStatement { name: String::new(), what: false }
    }
}

} // verus!
