//! The catalog of stages that a test suite supports.

use vstd::prelude::*;

use crate::case::Case;

verus! {

/// A test suite: the program it tests and its stages, in catalog order.
pub struct Definition<F> {
    /// The file name of the program under test.
    pub executable_name: String,
    /// The file name that the program had in older submissions, if any.
    pub legacy_executable_name: Option<String>,
    /// The stages of the suite.
    pub cases: Vec<Case<F>>,
    /// Further stages that guard against cheating.
    pub anti_cheat_cases: Vec<Case<F>>,
}

/// The first of `cases` whose slug is `slug`, if there is one.
pub open spec fn first_with_slug<F>(cases: Seq<Case<F>>, slug: Seq<char>) -> Option<Case<F>>
    decreases cases.len(),
{
    if cases.len() == 0 {
        None
    } else if cases[0].slug@ == slug {
        Some(cases[0])
    } else {
        first_with_slug(cases.skip(1), slug)
    }
}

/// A slug that no case carries finds nothing, and a slug that finds a case
/// finds one that carries it.
pub proof fn lemma_first_with_slug<F>(cases: Seq<Case<F>>, slug: Seq<char>)
    ensures
        first_with_slug(cases, slug) is None <==> forall|i: int|
            0 <= i < cases.len() ==> (#[trigger] cases[i]).slug@ != slug,
        first_with_slug(cases, slug) matches Some(case) ==> case.slug@ == slug && cases.contains(
            case,
        ),
    decreases cases.len(),
{
    if cases.len() > 0 {
        let rest = cases.skip(1);
        lemma_first_with_slug(rest, slug);
        if cases[0].slug@ != slug {
            if first_with_slug(rest, slug) is None {
                assert forall|i: int| 0 <= i < cases.len() implies (#[trigger] cases[i]).slug@
                    != slug by {
                    if i > 0 {
                        assert(rest[i - 1] == cases[i]);
                    }
                }
            }
        }
    }
}

impl<F> Definition<F> {
    /// The first case of the catalog whose slug is `slug`.
    pub fn find_case(&self, slug: &str) -> (found: Option<&Case<F>>)
        ensures
            found == match first_with_slug(self.cases@, slug@) {
                Some(case) => Some(&case),
                None => None,
            },
    {
        let wanted: String = String::from_str(slug);
        let mut i: usize = 0;
        assert(self.cases@.skip(0) == self.cases@);
        while i < self.cases.len()
            invariant
                i <= self.cases@.len(),
                wanted@ == slug@,
                first_with_slug(self.cases@, slug@) == first_with_slug(
                    self.cases@.skip(i as int),
                    slug@,
                ),
            decreases self.cases@.len() - i,
        {
            let ghost rest: Seq<Case<F>> = self.cases@.skip(i as int);
            assert(rest.skip(1) == self.cases@.skip(i as int + 1));
            if self.cases[i].slug == wanted {
                return Some(&self.cases[i]);
            }
            i += 1;
        }
        None
    }
}

impl<F> Default for Definition<F> {
    /// A suite with no name and no stage.
    fn default() -> (empty: Definition<F>)
        ensures
            empty.executable_name@ == Seq::<char>::empty(),
            empty.legacy_executable_name is None,
            empty.cases@ == Seq::<Case<F>>::empty(),
            empty.anti_cheat_cases@ == Seq::<Case<F>>::empty(),
    {
        Definition {
            executable_name: String::new(),
            legacy_executable_name: None,
            cases: Vec::new(),
            anti_cheat_cases: Vec::new(),
        }
    }
}

} // verus!
