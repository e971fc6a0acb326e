//! What is decided while a dependency is fetched or removed: where its
//! mirror lives, how its remote is registered, which version is checked out
//! and how a failed checkout is reported. The calls that touch the
//! repository and the disk are made by the caller, in the order given here.

use crate::error::PackageError;
use crate::manifest::{
    dependencies, document_text, is_removal_of, dependency_alias, get_config, is_removal_from, parsed_document, recorded_alias,
    remove_dependency, save_config, well_formed,
};
use crate::version::{is_maximum, latest_version, none_parses, select_latest, tag_texts, version_text};
use vstd::prelude::*;
use vstd::string::*;

verus! {

/// The index of the last `/` of a name, or -1 where it has none.
pub open spec fn last_slash(name: Seq<char>) -> int
    decreases name.len(),
{
    if name.len() == 0 {
        -1
    } else if name.last() == '/' {
        name.len() - 1
    } else {
        last_slash(name.drop_last())
    }
}

/// A dependency name has a default alias: it holds a `/` with something
/// after the last one.
pub open spec fn has_default_alias(name: Seq<char>) -> bool {
    0 <= last_slash(name) < name.len() - 1
}

/// The default alias of a dependency name: what follows its last `/`.
pub open spec fn default_alias(name: Seq<char>) -> Seq<char> {
    name.subrange(last_slash(name) + 1, name.len() as int)
}

/// The address that a dependency is fetched from.
pub open spec fn url_of(name: Seq<char>) -> Seq<char> {
    "https://"@ + name + ".git"@
}

/// The folder of the mirror with the given alias.
pub open spec fn folder_of(alias: Seq<char>) -> Seq<char> {
    ".bend/"@ + alias
}

/// The last `/` of a name is a `/`, and none follows it.
pub proof fn last_slash_is_last(name: Seq<char>)
    ensures
        -1 <= last_slash(name) < name.len(),
        last_slash(name) >= 0 ==> name[last_slash(name)] == '/',
        forall|i: int| last_slash(name) < i < name.len() ==> name[i] != '/',
    decreases name.len(),
{
    if name.len() > 0 && name.last() != '/' {
        let head = name.drop_last();
        last_slash_is_last(head);
        assert forall|i: int| last_slash(name) < i < name.len() implies name[i] != '/' by {
            if i < head.len() {
                assert(head[i] == name[i]);
            }
        }
    }
}

/// Finds the last `/` of a name.
pub fn find_last_slash(name: &str) -> (r: Option<usize>)
    ensures
        match r {
            Some(i) => i == last_slash(name@) && i < name@.len(),
            None => last_slash(name@) == -1,
        },
{
    let mut i: usize = name.unicode_len();
    proof {
        assert(name@.take(i as int) =~= name@);
    }
    while i > 0
        invariant
            i <= name@.len(),
            last_slash(name@) == last_slash(name@.take(i as int)),
        decreases i,
    {
        let ghost head = name@.take(i as int);
        proof {
            assert(head.last() == name@[i - 1]);
            assert(head.drop_last() =~= name@.take(i - 1));
        }
        if name.get_char(i - 1) == '/' {
            return Some(i - 1);
        }
        i -= 1;
    }
    proof {
        assert(name@.take(0).len() == 0);
    }
    None
}

/// Whether a dependency name has a default alias.
pub fn is_dependency_name(name: &str) -> (r: bool)
    ensures
        r == has_default_alias(name@),
{
    let len: usize = name.unicode_len();
    match find_last_slash(name) {
        Some(i) => i + 1 < len,
        None => false,
    }
}

/// The default alias of a dependency name: its last segment, which is not
/// empty and holds no `/`.
pub fn repository_name(name: &str) -> (r: &str)
    requires
        has_default_alias(name@),
    ensures
        r@ == default_alias(name@),
        r@.len() > 0,
        !r@.contains('/'),
        name@ == name@.take(name@.len() - r@.len() - 1) + seq!['/'] + r@,
{
    proof {
        last_slash_is_last(name@);
    }
    let len: usize = name.unicode_len();
    match find_last_slash(name) {
        Some(i) => {
            let r = name.substring_char(i + 1, len);
            proof {
                assert(name@ =~= name@.take(name@.len() - r@.len() - 1) + seq!['/'] + r@);
            }
            r
        },
        None => name,
    }
}

/// The address that a dependency is fetched from: `https://`, the name,
/// `.git`.
pub fn repository_url(name: &str) -> (r: String)
    ensures
        r@ == url_of(name@),
{
    let mut url = String::from_str("https://");
    url.append(name);
    url.append(".git");
    url
}

/// The folder of the mirror with the given alias, under `.bend/`.
pub fn mirror_folder(alias: &str) -> (r: String)
    ensures
        r@ == folder_of(alias@),
{
    let mut folder = String::from_str(".bend/");
    folder.append(alias);
    folder
}

/// What fetching a dependency works on.
#[derive(Debug, Clone, PartialEq, Eq)]
pub struct FetchPlan {
    /// The dependency, as it is keyed in the manifest.
    pub name: String,
    /// The address of its repository.
    pub url: String,
    /// The folder of its mirror.
    pub folder: String,
    /// The version asked for, if any.
    pub version: Option<String>,
    /// The alias asked for, if any.
    pub alias: Option<String>,
}

/// Plans the fetch of a dependency: its address, and the folder of its
/// mirror, named by the alias or else by the default alias of the name.
pub fn get(name: &str, version: Option<String>, alias: Option<String>) -> (plan: FetchPlan)
    requires
        alias.is_none() ==> has_default_alias(name@),
    ensures
        plan.name@ == name@,
        plan.url@ == url_of(name@),
        plan.folder@ == folder_of(
            match alias {
                Some(a) => a@,
                None => default_alias(name@),
            },
        ),
        plan.version == version,
        plan.alias == alias,
{
    let folder = match &alias {
        Some(a) => mirror_folder(a.as_str()),
        None => mirror_folder(repository_name(name)),
    };
    FetchPlan { name: name.to_owned(), url: repository_url(name), folder, version, alias }
}

/// The remote `origin` of a mirror, as it is found.
#[derive(Debug, Clone, PartialEq, Eq)]
pub enum RemoteState {
    /// The mirror has no such remote.
    Missing,
    /// The remote exists; its address, where that is text.
    Registered { url: Option<String> },
}

/// One call on the remote and the tags of a mirror.
#[derive(Debug, Clone, Copy, PartialEq, Eq)]
pub enum Step {
    /// Register the remote with the address.
    CreateRemote,
    /// Point the existing remote at the address.
    RepointRemote,
    /// Delete every local tag.
    DeleteLocalTags,
    /// Fetch the tags of the remote onto the local tags.
    FetchTags,
}

/// What is done about the remote of a mirror.
#[derive(Debug, Clone, Copy, PartialEq, Eq)]
pub enum RemoteAction {
    /// It is registered with the address.
    Create,
    /// It is pointed at the address.
    Repoint,
    /// It is left as it is.
    Keep,
}

/// The remote is registered with this address.
pub open spec fn points_at(state: RemoteState, url: Seq<char>) -> bool {
    state matches RemoteState::Registered { url: Some(u) } && u@ == url
}

/// What is done about a remote that is to have the address `url`: it is
/// created where it is missing, repointed where it has another address or
/// one that is no text, and kept where it has the right one.
pub open spec fn remote_action(state: RemoteState, url: Seq<char>) -> RemoteAction {
    if state is Missing {
        RemoteAction::Create
    } else if points_at(state, url) {
        RemoteAction::Keep
    } else {
        RemoteAction::Repoint
    }
}

/// The address that the remote has once the action is carried out.
pub open spec fn registered_after(state: RemoteState, action: RemoteAction, url: Seq<char>) -> Option<
    Seq<char>,
> {
    match action {
        RemoteAction::Create | RemoteAction::Repoint => Some(url),
        RemoteAction::Keep => match state {
            RemoteState::Registered { url: Some(u) } => Some(u@),
            _ => None,
        },
    }
}

/// Decides what is done about the remote of a mirror. Whatever the remote
/// was, it has exactly the address `url` afterwards.
pub fn setup_remote(state: &RemoteState, url: &str) -> (action: RemoteAction)
    ensures
        action == remote_action(*state, url@),
        registered_after(*state, action, url@) == Some(url@),
{
    match state {
        RemoteState::Missing => RemoteAction::Create,
        RemoteState::Registered { url: Some(current) } => {
            if *current == url.to_owned() {
                RemoteAction::Keep
            } else {
                RemoteAction::Repoint
            }
        },
        RemoteState::Registered { url: None } => RemoteAction::Repoint,
    }
}

/// Why a checkout failed.
#[derive(Debug, Clone, PartialEq, Eq)]
pub struct CheckoutFailure {
    /// The version resolves to no reference or revision of the repository.
    pub missing_reference: bool,
    /// What the repository reported.
    pub message: String,
}

/// The error that reports a failed checkout of `tag`: `VersionNotFound`
/// with the tag and the address where the tag resolves to nothing, the
/// repository's own message for any other failure.
pub open spec fn is_checkout_error(
    tag: String,
    url: Seq<char>,
    failure: CheckoutFailure,
    e: PackageError,
) -> bool {
    if failure.missing_reference {
        e matches PackageError::VersionNotFound { version, url: at } && version == tag && at@ == url
    } else {
        e == (PackageError::Infrastructure { message: failure.message })
    }
}

/// Reports a failed checkout of `tag`.
pub fn checkout_error(tag: String, url: &str, failure: CheckoutFailure) -> (e: PackageError)
    ensures
        is_checkout_error(tag, url@, failure, e),
{
    if failure.missing_reference {
        PackageError::VersionNotFound { version: tag, url: url.to_owned() }
    } else {
        PackageError::Infrastructure { message: failure.message }
    }
}

/// Where the fetch of a dependency stands: what it waits for.
#[derive(Debug, Clone, PartialEq, Eq)]
pub enum Stage {
    /// The mirror is being opened, or initialized where there is none.
    Opening,
    /// The remote is being looked up.
    Looking,
    /// The remote is being created or repointed.
    Registering,
    /// The local tags are being deleted.
    Deleting,
    /// The tags of the remote are being fetched.
    Fetching,
    /// The tags of the mirror are being listed.
    Listing,
    /// The version is being checked out.
    CheckingOut { tag: String },
    /// The fetch is over.
    Finished,
}

/// What came of the last action.
#[derive(Debug, Clone, PartialEq, Eq)]
pub enum Event {
    /// It was carried out.
    Done,
    /// The remote was looked up.
    Remote(RemoteState),
    /// The tags were listed.
    Tags(Vec<String>),
    /// The checkout failed.
    CheckoutFailed(CheckoutFailure),
    /// It failed otherwise.
    Failed { message: String },
}

/// What is to be done next on the mirror.
#[derive(Debug, PartialEq, Eq)]
pub enum Action {
    /// Open the mirror, or initialize an empty one where there is none.
    OpenMirror,
    /// Look up the remote.
    FindRemote,
    /// Make this call on the remote or the tags.
    Run(Step),
    /// List the tags of the mirror.
    ListTags,
    /// Check this version out.
    Checkout { tag: String },
    /// Nothing more: the version that was checked out, or the error.
    Finish(Result<String, PackageError>),
}

/// The words for an event that the stage does not wait for.
pub open spec fn unexpected() -> Seq<char> {
    "unexpected event"@
}

/// The fetch ends with this `Infrastructure` message.
pub open spec fn fails_with(next: Stage, action: Action, text: Seq<char>) -> bool {
    next is Finished && (action matches Action::Finish(
        Err(PackageError::Infrastructure { message }),
    ) && message@ == text)
}

/// Whether `next` and `action` follow on `event` at `stage`.
///
/// The mirror is opened, its remote looked up and brought to the address
/// of the plan, the local tags deleted and those of the remote fetched, in
/// this order and whatever the remote was. Then the version of the plan is
/// checked out as it is, or else the tags are listed and the latest
/// semantic version among them is; with none the fetch ends in
/// `NoTagsFound`. A failed checkout ends it in `VersionNotFound` or with
/// the repository's message, any other failure with its message, and an
/// event that the stage does not wait for with an error too.
pub open spec fn follows(
    plan: FetchPlan,
    stage: Stage,
    event: Event,
    next: Stage,
    action: Action,
) -> bool {
    match (stage, event) {
        (Stage::Finished, _) => fails_with(next, action, unexpected()),
        (_, Event::Failed { message }) => fails_with(next, action, message@),
        (Stage::Opening, Event::Done) => next is Looking && action is FindRemote,
        (Stage::Looking, Event::Remote(state)) => match remote_action(state, plan.url@) {
            RemoteAction::Create => next is Registering && action == Action::Run(
                Step::CreateRemote,
            ),
            RemoteAction::Repoint => next is Registering && action == Action::Run(
                Step::RepointRemote,
            ),
            RemoteAction::Keep => next is Deleting && action == Action::Run(Step::DeleteLocalTags),
        },
        (Stage::Registering, Event::Done) => next is Deleting && action == Action::Run(
            Step::DeleteLocalTags,
        ),
        (Stage::Deleting, Event::Done) => next is Fetching && action == Action::Run(
            Step::FetchTags,
        ),
        (Stage::Fetching, Event::Done) => match plan.version {
            Some(v) => next == (Stage::CheckingOut { tag: v }) && action == (Action::Checkout {
                tag: v,
            }),
            None => next is Listing && action is ListTags,
        },
        (Stage::Listing, Event::Tags(tags)) => match latest_version(tag_texts(tags@)) {
            Some(v) => is_maximum(tag_texts(tags@), v) && (next matches Stage::CheckingOut { tag }
                && tag@ == version_text(v)) && (action matches Action::Checkout { tag }
                && tag@ == version_text(v)),
            None => none_parses(tag_texts(tags@)) && next is Finished && action == Action::Finish(
                Err(PackageError::NoTagsFound),
            ),
        },
        (Stage::CheckingOut { tag }, Event::Done) => next is Finished && action == Action::Finish(
            Ok(tag),
        ),
        (Stage::CheckingOut { tag }, Event::CheckoutFailed(failure)) => next is Finished && (
        action matches Action::Finish(Err(e)) && is_checkout_error(tag, plan.url@, failure, e)),
        _ => fails_with(next, action, unexpected()),
    }
}

/// The stage and the action that a fetch begins with.
pub fn begin() -> (r: (Stage, Action))
    ensures
        r.0 is Opening,
        r.1 is OpenMirror,
{
    (Stage::Opening, Action::OpenMirror)
}

/// Ends a fetch with an `Infrastructure` error.
fn fail(message: String) -> (r: (Stage, Action))
    ensures
        fails_with(r.0, r.1, message@),
{
    (Stage::Finished, Action::Finish(Err(PackageError::Infrastructure { message })))
}

/// Takes a fetch one step on: from the stage it stands at and what came of
/// the last action to the next stage and action.
pub fn setup_repo(plan: &FetchPlan, stage: Stage, event: Event) -> (r: (Stage, Action))
    ensures
        follows(*plan, stage, event, r.0, r.1),
{
    match (stage, event) {
        (Stage::Finished, _) => fail(String::from_str("unexpected event")),
        (_, Event::Failed { message }) => fail(message),
        (Stage::Opening, Event::Done) => (Stage::Looking, Action::FindRemote),
        (Stage::Looking, Event::Remote(state)) => match setup_remote(&state, plan.url.as_str()) {
            RemoteAction::Create => (Stage::Registering, Action::Run(Step::CreateRemote)),
            RemoteAction::Repoint => (Stage::Registering, Action::Run(Step::RepointRemote)),
            RemoteAction::Keep => (Stage::Deleting, Action::Run(Step::DeleteLocalTags)),
        },
        (Stage::Registering, Event::Done) => (Stage::Deleting, Action::Run(Step::DeleteLocalTags)),
        (Stage::Deleting, Event::Done) => (Stage::Fetching, Action::Run(Step::FetchTags)),
        (Stage::Fetching, Event::Done) => match &plan.version {
            Some(v) => (Stage::CheckingOut { tag: v.clone() }, Action::Checkout { tag: v.clone() }),
            None => (Stage::Listing, Action::ListTags),
        },
        (Stage::Listing, Event::Tags(tags)) => match select_latest(&tags) {
            Ok(tag) => (Stage::CheckingOut { tag: tag.clone() }, Action::Checkout { tag }),
            Err(e) => (Stage::Finished, Action::Finish(Err(e))),
        },
        (Stage::CheckingOut { tag }, Event::Done) => (Stage::Finished, Action::Finish(Ok(tag))),
        (Stage::CheckingOut { tag }, Event::CheckoutFailed(failure)) => (
            Stage::Finished,
            Action::Finish(Err(checkout_error(tag, plan.url.as_str(), failure))),
        ),
        _ => fail(String::from_str("unexpected event")),
    }
}

/// The alias that a mirror is named by: the one given, or else the default
/// alias of the name.
pub open spec fn mirror_alias(alias: Option<Seq<char>>, name: Seq<char>) -> Seq<char> {
    match alias {
        Some(a) => a,
        None => default_alias(name),
    }
}

/// The folder of the mirror of a dependency that is recorded with this
/// alias, or with none.
pub fn remove_repo(name: &str, alias: &Option<String>) -> (r: String)
    requires
        alias.is_none() ==> has_default_alias(name@),
    ensures
        r@ == folder_of(
            mirror_alias(
                match *alias {
                    Some(a) => Some(a@),
                    None => None,
                },
                name@,
            ),
        ),
{
    match alias {
        Some(a) => mirror_folder(a.as_str()),
        None => mirror_folder(repository_name(name)),
    }
}

/// What removing a dependency leaves to do.
#[derive(Debug, Clone, PartialEq, Eq)]
pub struct Removal {
    /// The new text of the manifest.
    pub manifest: String,
    /// The folder of the mirror, to be deleted if it is there.
    pub folder: String,
}

/// The mirror of the dependency can be named: where the manifest records
/// the dependency without an alias, its name has a default alias.
pub open spec fn names_mirror(manifest: Seq<char>, name: Seq<char>) -> bool {
    match parsed_document(manifest) {
        Some(d) if well_formed(d) && dependencies(d).contains_key(name) => recorded_alias(
            d,
            name,
        ).is_none() ==> has_default_alias(name),
        _ => true,
    }
}

/// Whether `r` is what the removal of `name` gives: the manifest without
/// the dependency, and the folder of its mirror, named by the alias that
/// the manifest recorded for it or else by the default alias of the name;
/// or the error of the removal from the manifest, and no folder.
pub open spec fn is_removal(
    manifest: Seq<char>,
    name: Seq<char>,
    r: Result<Removal, PackageError>,
) -> bool {
    match r {
        Ok(removal) => is_removal_from(manifest, name, Ok(removal.manifest)) && removal.folder@
            == folder_of(mirror_alias(recorded_alias(parsed_document(manifest)->0, name), name)),
        Err(e) => is_removal_from(manifest, name, Err(e)),
    }
}

/// Removes a dependency: first from the manifest, and only where that
/// succeeds is the folder of its mirror handed out for deletion.
pub fn remove(manifest: &str, name: &str) -> (r: Result<Removal, PackageError>)
    requires
        names_mirror(manifest@, name@),
    ensures
        is_removal(manifest@, name@, r),
{
    let mut doc = get_config(manifest)?;
    let ghost parsed = doc;
    let alias = dependency_alias(&mut doc, name)?;
    let ghost ready = doc;
    let folder = remove_repo(name, &alias);
    match remove_dependency(&mut doc, name) {
        Err(e) => Err(e),
        Ok(()) => {
            let text = save_config(&doc);
            proof {
                assert(is_removal_of(parsed, doc, name@) && document_text(doc) == text@);
            }
            Ok(Removal { manifest: text, folder })
        },
    }
}

/// Removes a dependency where its mirror can be named, and does nothing
/// where it cannot: the manifest records the dependency without an alias
/// and its name has no default alias.
pub fn try_remove(manifest: &str, name: &str) -> (r: Option<Result<Removal, PackageError>>)
    ensures
        r.is_some() == names_mirror(manifest@, name@),
        r matches Some(outcome) ==> is_removal(manifest@, name@, outcome),
{
    let named = match get_config(manifest) {
        Err(_) => true,
        Ok(parsed) => {
            let mut doc = parsed;
            match dependency_alias(&mut doc, name) {
                Ok(None) => is_dependency_name(name),
                _ => true,
            }
        },
    };
    if named {
        Some(remove(manifest, name))
    } else {
        None
    }
}

} // verus!
