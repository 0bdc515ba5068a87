//! The reconciler: create the namespace, and where it already exists, find it.
//!
//! The reconciler makes no remote call itself. The caller performs the call
//! that the current phase asks for and hands its outcome back:
//! `Creating` wants the outcome of creating [`Reconciler::title`] under
//! [`Reconciler::account_id`], `Listing` the outcome of listing that account's
//! namespaces.

use vstd::prelude::*;

use crate::remote::{
    category, classify, find_title, first_match, lemma_first_match_from_exists, lemma_first_match_from_found, Category,
    NamespaceHandle, ProviderError, RemoteError, has_code, ALREADY_EXISTS_CODE,
};
use crate::title::{namespace_title, site_title};

verus! {

/// The deployment a namespace is provisioned for.
#[derive(Debug)]
pub struct Target {
    pub account_id: String,
    pub name: String,
}

/// Why provisioning failed.
#[derive(Debug)]
pub enum SiteError {
    /// The account is not entitled to create namespaces.
    FeatureNotEntitled,
    /// The create was refused because the namespace exists, yet listing did not show it.
    AlreadyExistsButNotFound,
    /// The provider refused with errors that call for no recovery; they are kept as given.
    UnclassifiedProviderError(Vec<ProviderError>),
    /// A remote call could not be carried out.
    TransportFailure(String),
}

/// Where a reconciliation stands.
#[derive(Clone, Copy, Debug, PartialEq, Eq, Structural)]
pub enum Phase {
    /// Waiting for the outcome of the create.
    Creating,
    /// The namespace exists; waiting for the outcome of the list.
    Listing,
    /// A handle was returned.
    Done,
    /// An error was returned.
    Failed,
}

/// What the outcome of a create leads to.
#[derive(Debug)]
pub enum Step {
    /// The namespace was created: here is its handle.
    Done(NamespaceHandle),
    /// The namespace exists already: list the account's namespaces next.
    Lookup,
    /// Provisioning failed.
    Failed(SiteError),
}

/// The error that a failed remote call surfaces as it stands.
pub open spec fn surfaced(e: RemoteError) -> SiteError {
    match e {
        RemoteError::Provider(errors) => SiteError::UnclassifiedProviderError(errors),
        RemoteError::Transport(detail) => SiteError::TransportFailure(detail),
    }
}

/// The step that the outcome of a create leads to.
pub open spec fn create_step(outcome: Result<NamespaceHandle, RemoteError>) -> Step {
    match outcome {
        Ok(handle) => Step::Done(handle),
        Err(RemoteError::Provider(errors)) => match category(errors@) {
            Category::AlreadyExists => Step::Lookup,
            Category::FeatureNotEntitled => Step::Failed(SiteError::FeatureNotEntitled),
            Category::Unclassified => Step::Failed(SiteError::UnclassifiedProviderError(errors)),
        },
        Err(e) => Step::Failed(surfaced(e)),
    }
}

/// The result that the outcome of the list leads to, for a namespace titled `title`:
/// the first listed namespace with that title.
pub open spec fn list_result(title: Seq<char>, outcome: Result<Vec<NamespaceHandle>, RemoteError>) -> Result<
    NamespaceHandle,
    SiteError,
> {
    match outcome {
        Ok(list) => match first_match(list@, title) {
            Some(i) => Ok(list@[i]),
            None => Err(SiteError::AlreadyExistsButNotFound),
        },
        Err(e) => Err(surfaced(e)),
    }
}

/// The phase that follows a step.
pub open spec fn phase_after(step: Step) -> Phase {
    match step {
        Step::Done(_) => Phase::Done,
        Step::Lookup => Phase::Listing,
        Step::Failed(_) => Phase::Failed,
    }
}

/// A reconciliation of one target in one mode.
#[derive(Debug)]
pub struct Reconciler {
    /// The account that owns the namespace.
    pub account_id: String,
    /// The title the namespace is created and looked up under.
    pub title: String,
    /// Which outcome the reconciliation waits for, or how it ended.
    pub phase: Phase,
}

/// `r` is a fresh reconciliation of `target` in the given mode.
pub open spec fn started(r: Reconciler, target: Target, preview: bool) -> bool {
    &&& r.account_id@ == target.account_id@
    &&& r.title@ == site_title(target.name@, preview)
    &&& r.phase == Phase::Creating
}

impl Reconciler {
    /// Starts the reconciliation of `target` in preview or production mode.
    pub fn new(target: &Target, preview: bool) -> (r: Reconciler)
        ensures
            started(r, *target, preview),
    {
        Reconciler {
            account_id: target.account_id.clone(),
            title: namespace_title(target.name.as_str(), preview),
            phase: Phase::Creating,
        }
    }

    /// Takes the outcome of the create and says what comes next.
    pub fn on_created(&mut self, outcome: Result<NamespaceHandle, RemoteError>) -> (step: Step)
        requires
            old(self).phase == Phase::Creating,
        ensures
            step == create_step(outcome),
            final(self).phase == phase_after(step),
            final(self).account_id == old(self).account_id,
            final(self).title == old(self).title,
    {
        let step = match outcome {
            Ok(handle) => Step::Done(handle),
            Err(RemoteError::Provider(errors)) => match classify(&errors) {
                Category::AlreadyExists => Step::Lookup,
                Category::FeatureNotEntitled => Step::Failed(SiteError::FeatureNotEntitled),
                Category::Unclassified => Step::Failed(
                    SiteError::UnclassifiedProviderError(errors),
                ),
            },
            Err(RemoteError::Transport(detail)) => Step::Failed(
                SiteError::TransportFailure(detail),
            ),
        };
        self.phase = match step {
            Step::Done(_) => Phase::Done,
            Step::Lookup => Phase::Listing,
            Step::Failed(_) => Phase::Failed,
        };
        step
    }

    /// Takes the outcome of the list and gives the result of the reconciliation.
    pub fn on_listed(&mut self, outcome: Result<Vec<NamespaceHandle>, RemoteError>) -> (r: Result<
        NamespaceHandle,
        SiteError,
    >)
        requires
            old(self).phase == Phase::Listing,
        ensures
            r == list_result(old(self).title@, outcome),
            final(self).phase == (if r is Ok {
                Phase::Done
            } else {
                Phase::Failed
            }),
            final(self).account_id == old(self).account_id,
            final(self).title == old(self).title,
    {
        let r = match outcome {
            Ok(mut list) => match find_title(&list, &self.title) {
                Some(i) => Ok(list.swap_remove(i)),
                None => Err(SiteError::AlreadyExistsButNotFound),
            },
            Err(RemoteError::Provider(errors)) => Err(SiteError::UnclassifiedProviderError(errors)),
            Err(RemoteError::Transport(detail)) => Err(SiteError::TransportFailure(detail)),
        };
        self.phase = if r.is_ok() {
            Phase::Done
        } else {
            Phase::Failed
        };
        r
    }
}

/// Provisioning one target twice in one mode asks for the same title both
/// times. Where the first run's create returned the namespace under the title
/// it asked for, the second run's create is refused as a conflict, and the
/// list shows that namespace, the second run goes on to the lookup and returns
/// a namespace with the first run's title.
pub proof fn lemma_repeat_same_title(
    target: Target,
    preview: bool,
    first: Reconciler,
    second: Reconciler,
    created: NamespaceHandle,
    conflict: Vec<ProviderError>,
    listed: Vec<NamespaceHandle>,
)
    requires
        started(first, target, preview),
        started(second, target, preview),
        created.title@ == first.title@,
        has_code(conflict@, ALREADY_EXISTS_CODE),
        listed@.contains(created),
    ensures
        first.title@ == second.title@,
        create_step(Err(RemoteError::Provider(conflict))) == Step::Lookup,
        list_result(second.title@, Ok(listed)) matches Ok(h) && h.title@ == created.title@,
{
    let i = choose|i: int| 0 <= i < listed@.len() && listed@[i] == created;
    lemma_first_match_from_exists(listed@, second.title@, 0, i);
    lemma_first_match_from_found(listed@, second.title@, 0);
}

} // verus!

verus! {

/// Makes sure that the namespace for `target` in the given mode exists and
/// returns its handle. `create` is called once, with the account and the
/// derived title; `list` is called at most once, with the account, after the
/// create has returned and only where it was refused because the namespace
/// already exists. `list` may demand this order: it need only accept an
/// account for which `create` has reported a conflict.
pub fn site<C, L>(target: &Target, preview: bool, create: C, list: L) -> (r: Result<
    NamespaceHandle,
    SiteError,
>) where
    C: FnOnce(String, String) -> Result<NamespaceHandle, RemoteError>,
    L: FnOnce(String) -> Result<Vec<NamespaceHandle>, RemoteError>,

    requires
        forall|account: String, title: String| create.requires((account, title)),
        forall|
            account: String,
            title: String,
            created: Result<NamespaceHandle, RemoteError>,
            again: String,
        |
            #![trigger create.ensures((account, title), created), list.requires((again,))]
            create.ensures((account, title), created) && create_step(created) is Lookup && again@
                == account@ ==> list.requires((again,)),
    ensures
        exists|account: String, title: String, created: Result<NamespaceHandle, RemoteError>|
            {
                &&& account@ == target.account_id@
                &&& title@ == site_title(target.name@, preview)
                &&& create.ensures((account, title), created)
                &&& match create_step(created) {
                    Step::Lookup => exists|
                        account: String,
                        listed: Result<Vec<NamespaceHandle>, RemoteError>,
                    |
                        {
                            &&& account@ == target.account_id@
                            &&& list.ensures((account,), listed)
                            &&& r == list_result(title@, listed)
                        },
                    Step::Done(handle) => r == Ok::<NamespaceHandle, SiteError>(handle),
                    Step::Failed(e) => r == Err::<NamespaceHandle, SiteError>(e),
                }
            },
{
    let mut reconciler = Reconciler::new(target, preview);
    let created = create(reconciler.account_id.clone(), reconciler.title.clone());
    match reconciler.on_created(created) {
        Step::Done(handle) => Ok(handle),
        Step::Failed(e) => Err(e),
        Step::Lookup => {
            let listed = list(reconciler.account_id.clone());
            reconciler.on_listed(listed)
        },
    }
}

} // verus!
