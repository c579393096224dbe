//! Environment variables: a map of names to values, and the expansion of
//! `$NAME` and `${NAME}` in strings.

use vstd::prelude::*;
use crate::text::same_text;

verus! {

/// Relies on `envmnt::expand` with Unix expansion: `${NAME}` and `$NAME` are
/// replaced by the values of the process environment. A string without `$`
/// comes back unchanged: both passes copy every other character as it is.
#[verifier::external_body]
pub(crate) fn expand_variables(s: &str) -> (r: String)
    ensures
        !s@.contains('$') ==> r@ == s@,
{
    let mut options = envmnt::ExpandOptions::new();
    options.expansion_type = Some(envmnt::ExpansionType::Unix);
    envmnt::expand(s, Some(options))
}

/// The map of a list of name and value pairs: a later pair for a name
/// replaces an earlier one.
pub open spec fn pairs_map(s: Seq<(String, String)>) -> Map<Seq<char>, Seq<char>>
    decreases s.len(),
{
    if s.len() == 0 {
        Map::empty()
    } else {
        pairs_map(s.drop_last()).insert(s.last().0@, s.last().1@)
    }
}

/// Environment variables by name.
#[derive(Debug)]
pub struct AppEnvVar {
    vars: Vec<(String, String)>,
}

impl View for AppEnvVar {
    type V = Map<Seq<char>, Seq<char>>;

    closed spec fn view(&self) -> Map<Seq<char>, Seq<char>> {
        pairs_map(self.vars@)
    }
}

impl AppEnvVar {
    /// No variables.
    pub fn empty() -> (r: AppEnvVar)
        ensures
            r@ == Map::<Seq<char>, Seq<char>>::empty(),
    {
        AppEnvVar { vars: Vec::new() }
    }

    /// These variables with `var` set to `value`.
    pub fn set_var(self, var: &str, value: &str) -> (r: AppEnvVar)
        ensures
            r@ == self@.insert(var@, value@),
    {
        let mut vars = self.vars;
        let ghost before = vars@;
        vars.push((var.to_owned(), value.to_owned()));
        proof {
            assert(vars@.drop_last() =~= before);
        }
        AppEnvVar { vars }
    }

    /// The value of `var`, if it is set.
    pub fn var(&self, var: &str) -> (r: Option<&str>)
        ensures
            r matches Some(v) ==> self@.contains_key(var@) && self@[var@] == v@,
            r is None ==> !self@.contains_key(var@),
    {
        let mut k: usize = self.vars.len();
        proof {
            assert(self.vars@.subrange(0, k as int) =~= self.vars@);
        }
        while k > 0
            invariant
                0 <= k <= self.vars@.len(),
                self@.contains_key(var@) == pairs_map(self.vars@.subrange(0, k as int)).contains_key(var@),
                self@.contains_key(var@) ==> self@[var@] == pairs_map(self.vars@.subrange(0, k as int))[var@],
            decreases k,
        {
            let ghost s = self.vars@.subrange(0, k as int);
            proof {
                assert(s.drop_last() =~= self.vars@.subrange(0, k - 1));
                assert(s.last() == self.vars@[k - 1]);
            }
            if same_text(self.vars[k - 1].0.as_str(), var) {
                return Some(self.vars[k - 1].1.as_str());
            }
            k = k - 1;
        }
        None
    }
}

} // verus!
