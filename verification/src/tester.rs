//! One run, from its configuration to the machine that runs its stages.

use std::path::PathBuf;
use vstd::prelude::*;

use crate::case::Case;
use crate::context::{configured, Context, ContextCase};
use crate::definition::{first_with_slug, lemma_first_with_slug, Definition};
use crate::error::TesterError;
use crate::executable::{opened, Executable, FileProbe};
use crate::runner::{step_views, RunState, Runner, RunnerView, Step, StepView};

verus! {

/// The configuration of a run together with the catalog that it selects
/// its stages from.
pub struct Tester<F> {
    context: Context,
    definition: Definition<F>,
}

/// The position of the first requested stage, at or after `from`, that the
/// catalog has no case for.
pub open spec fn first_unknown<F>(
    requested: Seq<ContextCase>,
    catalog: Seq<Case<F>>,
    from: int,
) -> Option<int>
    decreases requested.len() - from,
{
    if from < 0 || from >= requested.len() {
        None
    } else if first_with_slug(catalog, requested[from].slug@) is None {
        Some(from)
    } else {
        first_unknown(requested, catalog, from + 1)
    }
}

/// The steps of a run of `requested` against `catalog`: one for each
/// requested stage that the catalog has a case for, in the order requested,
/// with the first case of that slug and the title and log prefix that were
/// requested. A stage without a case is left out.
pub open spec fn steps_of<F>(requested: Seq<ContextCase>, catalog: Seq<Case<F>>) -> Seq<
    StepView<F>,
>
    decreases requested.len(),
{
    if requested.len() == 0 {
        Seq::empty()
    } else {
        let earlier = steps_of(requested.drop_last(), catalog);
        let last = requested.last();
        match first_with_slug(catalog, last.slug@) {
            Some(case) => earlier.push(
                StepView { case, log_prefix: last.log_prefix@, title: last.title@ },
            ),
            None => earlier,
        }
    }
}

/// What a [`Tester`] holds.
pub struct TesterView<F> {
    /// The configuration of the run.
    pub context: Context,
    /// The catalog of the run.
    pub definition: Definition<F>,
}

impl<F> View for Tester<F> {
    type V = TesterView<F>;

    closed spec fn view(&self) -> TesterView<F> {
        TesterView { context: self.context, definition: self.definition }
    }
}

impl<F> Tester<F> {
    /// A tester for the run that `env` configures, against the catalog
    /// `definition`. The configuration is made, or refused, as
    /// [`Context::from_env`] says.
    pub fn new(
        env: Vec<(String, String)>,
        definition: Definition<F>,
        decoded: Result<Vec<ContextCase>, serde_json::Error>,
        executable_path: PathBuf,
        probe: &FileProbe,
    ) -> (made: Result<Tester<F>, TesterError>)
        ensures
            match made {
                Ok(tester) => {
                    &&& configured(
                        env,
                        decoded,
                        executable_path,
                        *probe,
                        Ok::<Context, TesterError>(tester@.context),
                    )
                    &&& tester@.definition == definition
                },
                Err(refused) => configured(
                    env,
                    decoded,
                    executable_path,
                    *probe,
                    Err::<Context, TesterError>(refused),
                ),
            },
    {
        match Context::from_env(env, decoded, executable_path, probe) {
            Ok(context) => Ok(Tester { context, definition }),
            Err(refused) => Err(refused),
        }
    }

    /// Sets the run up: opens the program under test, of which the file
    /// system reported `probe`, and pairs it with a runner that has not
    /// started, over the steps that [`steps_of`] gives. The driver takes the
    /// run from there.
    pub fn run<P>(&self, probe: FileProbe) -> (ready: Result<
        (Runner<'_, F>, Executable<P>),
        TesterError,
    >)
        ensures
            match ready {
                Ok((runner, executable)) => {
                    &&& opened(
                        self@.context.executable_path,
                        probe,
                        Ok::<Executable<P>, TesterError>(executable),
                    )
                    &&& runner@.state == RunState::Pending
                    &&& !runner@.quiet
                    &&& step_views(runner@.steps) == steps_of(
                        self@.context.cases@,
                        self@.definition.cases@,
                    )
                },
                Err(failure) => opened(
                    self@.context.executable_path,
                    probe,
                    Err::<Executable<P>, TesterError>(failure),
                ),
            },
    {
        let executable: Executable<P> = match self.get_executable(probe) {
            Ok(executable) => executable,
            Err(failure) => {
                return Err(failure);
            },
        };
        Ok((self.build_runner(), executable))
    }

    /// The configuration, where the run is in debug mode and its
    /// configuration is therefore to be printed.
    pub fn print_debug_context(&self) -> (shown: Option<&Context>)
        ensures
            shown == if self@.context.is_debug {
                Some(&self@.context)
            } else {
                None
            },
    {
        if !self.context.is_debug {
            return None;
        }
        Some(&self.context)
    }

    /// Pairs each requested stage with its case of the catalog, leaving out
    /// the stages that have none.
    fn collect_steps(&self) -> (steps: Vec<Step<'_, F>>)
        ensures
            step_views(steps@) == steps_of(self@.context.cases@, self@.definition.cases@),
    {
        let ghost requested: Seq<ContextCase> = self.context.cases@;
        let ghost catalog: Seq<Case<F>> = self.definition.cases@;
        let mut steps: Vec<Step<'_, F>> = Vec::new();
        let mut i: usize = 0;
        while i < self.context.cases.len()
            invariant
                i <= requested.len(),
                requested == self.context.cases@,
                catalog == self.definition.cases@,
                step_views(steps@) == steps_of(requested.take(i as int), catalog),
            decreases requested.len() - i,
        {
            let context_case: &ContextCase = &self.context.cases[i];
            let ghost upto: Seq<ContextCase> = requested.take(i + 1);
            assert(upto.drop_last() == requested.take(i as int));
            if let Some(definition_case) = self.definition.find_case(context_case.slug.as_str()) {
                let step: Step<'_, F> = Step {
                    case: definition_case,
                    log_prefix: context_case.log_prefix.as_str(),
                    title: context_case.title.as_str(),
                };
                steps.push(step);
            }
            i += 1;
        }
        assert(requested.take(i as int) == requested);
        steps
    }

    /// A runner over the steps of the run.
    fn build_runner(&self) -> (runner: Runner<'_, F>)
        ensures
            runner@.state == RunState::Pending,
            !runner@.quiet,
            step_views(runner@.steps) == steps_of(self@.context.cases@, self@.definition.cases@),
    {
        Runner::new(self.collect_steps())
    }

    /// Opens the program under test at the path of the configuration.
    fn get_executable<P>(&self, probe: FileProbe) -> (made: Result<Executable<P>, TesterError>)
        ensures
            opened(self@.context.executable_path, probe, made),
    {
        Executable::new(self.context.executable_path.clone(), probe)
    }

    /// The configuration of the run.
    pub fn context(&self) -> (context: &Context)
        ensures
            *context == self@.context,
    {
        &self.context
    }

    /// The catalog of the run.
    pub fn definition(&self) -> (definition: &Definition<F>)
        ensures
            *definition == self@.definition,
    {
        &self.definition
    }

    /// Checks that the catalog has a case for every requested stage. The
    /// first stage that has none is named in the error.
    pub fn validate(&self) -> (checked: Result<(), TesterError>)
        ensures
            match first_unknown(self@.context.cases@, self@.definition.cases@, 0) {
                None => checked == Ok::<(), TesterError>(()),
                Some(at) => checked matches Err(TesterError::Custom(text)) && text@
                    == "tester context does not have test case with slug "@
                    + self@.context.cases@[at].slug@,
            },
    {
        let mut i: usize = 0;
        while i < self.context.cases.len()
            invariant
                i <= self.context.cases@.len(),
                first_unknown(self.context.cases@, self.definition.cases@, 0) == first_unknown(
                    self.context.cases@,
                    self.definition.cases@,
                    i as int,
                ),
            decreases self.context.cases@.len() - i,
        {
            let context_case: &ContextCase = &self.context.cases[i];
            if self.definition.find_case(context_case.slug.as_str()).is_none() {
                let mut text: String = String::from_str(
                    "tester context does not have test case with slug ",
                );
                text.append(context_case.slug.as_str());
                return Err(TesterError::Custom(text));
            }
            i += 1;
        }
        Ok(())
    }
}

/// A run that was validated leaves no requested stage out: it has one step
/// for each requested stage, in the order requested, and each step carries
/// a case of the catalog with the slug that was requested, under the title
/// and the log prefix that were requested.
pub proof fn law_validated_run_covers_every_request<F>(
    requested: Seq<ContextCase>,
    catalog: Seq<Case<F>>,
)
    requires
        first_unknown(requested, catalog, 0) is None,
    ensures
        steps_of(requested, catalog).len() == requested.len(),
        forall|i: int|
            0 <= i < requested.len() ==> {
                let step = #[trigger] steps_of(requested, catalog)[i];
                &&& step.case.slug@ == requested[i].slug@
                &&& catalog.contains(step.case)
                &&& step.title == requested[i].title@
                &&& step.log_prefix == requested[i].log_prefix@
            },
    decreases requested.len(),
{
    lemma_every_request_is_known(requested, catalog, 0);
    if requested.len() > 0 {
        let earlier = requested.drop_last();
        lemma_known_requests_are_valid(earlier, catalog, 0);
        law_validated_run_covers_every_request(earlier, catalog);
        lemma_first_with_slug(catalog, requested.last().slug@);
    }
}

/// Where no request from `from` on is unknown, each of them has a case.
proof fn lemma_every_request_is_known<F>(
    requested: Seq<ContextCase>,
    catalog: Seq<Case<F>>,
    from: int,
)
    requires
        0 <= from,
        first_unknown(requested, catalog, from) is None,
    ensures
        forall|i: int|
            from <= i < requested.len() ==> first_with_slug(
                catalog,
                (#[trigger] requested[i]).slug@,
            ) is Some,
    decreases requested.len() - from,
{
    if from < requested.len() {
        lemma_every_request_is_known(requested, catalog, from + 1);
    }
}

/// Where each request from `from` on has a case, none of them is unknown.
proof fn lemma_known_requests_are_valid<F>(
    requested: Seq<ContextCase>,
    catalog: Seq<Case<F>>,
    from: int,
)
    requires
        0 <= from,
        forall|i: int|
            from <= i < requested.len() ==> first_with_slug(
                catalog,
                (#[trigger] requested[i]).slug@,
            ) is Some,
    ensures
        first_unknown(requested, catalog, from) is None,
    decreases requested.len() - from,
{
    if from < requested.len() {
        lemma_known_requests_are_valid(requested, catalog, from + 1);
    }
}

} // verus!
