//! From an object key to what is to be done with the object.

use vstd::prelude::*;
use vstd::string::*;

use crate::asset::{stored_asset, Asset, AssetView};
use crate::eligibility::{eligibility, skip_reason, SkipReason, SweepMode};
use crate::error::KeyError;
use crate::policy::{derived_name, is_routed, route_of, Mode, Policy, Route, StampRule};
use crate::text::{
    concat, copy_text, ends_with, find, finishes_with, first_match, last_piece, piece, same_text,
    slice, split, split_text, trim_leading, trim_prefix, views, without_leading, without_prefix,
};
use crate::time::{
    age_in_seconds, age_seconds, hour_text, instant_of, minute_text, parsed_instant, rfc3339_text,
    Timestamp, COMPACT_FORMAT,
};

verus! {

/// An object as the store lists it.
#[derive(Clone, Debug, PartialEq, Eq)]
pub struct StoredObject {
    /// The key, which identifies the object.
    pub key: String,
    /// When the store says the object was last modified.
    pub last_modified: Timestamp,
    /// Size in bytes.
    pub size: u64,
}

/// How far down the digits of a token go.
#[derive(Clone, Copy, Debug, PartialEq, Eq, Structural)]
pub enum Precision {
    /// Year, month, day, hour and minute.
    Minute,
    /// Year, month, day and hour.
    Hour,
}

/// What a stamp rule finds in a target key.
#[derive(Clone, Debug, PartialEq, Eq)]
pub struct Reading {
    /// The target key, without the window that held the token.
    pub target: String,
    /// The token that holds the instant. Without one, the instant is the
    /// time of the last modification.
    pub token: Option<(Precision, String)>,
}

/// What a [`Reading`] holds, as sequences of characters.
pub struct ReadingView {
    pub target: Seq<char>,
    pub token: Option<(Precision, Seq<char>)>,
}

impl View for Reading {
    type V = ReadingView;

    open spec fn view(&self) -> ReadingView {
        ReadingView {
            target: self.target@,
            token: match self.token {
                Some((precision, text)) => Some((precision, text@)),
                None => None,
            },
        }
    }
}

/// The document that an asset is attached to, and what else is done.
#[derive(Clone, Debug, PartialEq, Eq)]
pub enum Work {
    /// The asset is attached to its collection. Where `reload` is set, the
    /// object is a manifest, and the items of the collection are replaced by
    /// what it holds before the asset is attached.
    Collection { reload: bool },
    /// The asset is attached to an item of its collection, whose `datetime`
    /// property is set. Where `create_missing` is set, an item that does not
    /// exist is created first.
    Item { item: String, datetime: String, create_missing: bool },
}

/// What a [`Work`] holds, as sequences of characters.
pub enum WorkView {
    Collection { reload: bool },
    Item { item: Seq<char>, datetime: Seq<char>, create_missing: bool },
}

impl View for Work {
    type V = WorkView;

    open spec fn view(&self) -> WorkView {
        match self {
            Work::Collection { reload } => WorkView::Collection { reload: *reload },
            Work::Item { item, datetime, create_missing } => WorkView::Item {
                item: item@,
                datetime: datetime@,
                create_missing: *create_missing,
            },
        }
    }
}

/// Everything that is to be done with one object.
#[derive(Clone, Debug, PartialEq, Eq)]
pub struct Job {
    /// Key of the object as it was listed.
    pub source: String,
    /// Key under which the object is kept for good.
    pub target: String,
    /// Identifier of the collection.
    pub collection: String,
    /// Name of the asset within its document.
    pub asset_id: String,
    /// The asset itself.
    pub asset: Asset,
    /// Whether the object has to be copied to its target key first.
    pub copy: bool,
    /// The document that the asset is attached to.
    pub work: Work,
    /// Whether the source is deleted once everything else has succeeded.
    pub delete_source: bool,
}

/// What a [`Job`] holds, as sequences of characters.
pub struct JobView {
    pub source: Seq<char>,
    pub target: Seq<char>,
    pub collection: Seq<char>,
    pub asset_id: Seq<char>,
    pub asset: AssetView,
    pub copy: bool,
    pub work: WorkView,
    pub delete_source: bool,
}

impl View for Job {
    type V = JobView;

    open spec fn view(&self) -> JobView {
        JobView {
            source: self.source@,
            target: self.target@,
            collection: self.collection@,
            asset_id: self.asset_id@,
            asset: self.asset@,
            copy: self.copy,
            work: self.work@,
            delete_source: self.delete_source,
        }
    }
}

/// What is decided about one listed object.
#[derive(Clone, Debug, PartialEq, Eq)]
pub enum Decision {
    /// The object is passed over.
    Skip(SkipReason),
    /// No route is configured for the collection of the object. It is
    /// passed over with a warning, and it is left where it is: nothing is
    /// written, copied or deleted.
    Unmapped(String),
    /// The key does not have the form that its route asks for.
    Invalid(KeyError),
    /// The object is processed.
    Process(Job),
}

/// What a [`Decision`] holds, as sequences of characters.
pub enum Plan {
    Skip(SkipReason),
    Unmapped(Seq<char>),
    Invalid(KeyError),
    Process(JobView),
}

impl View for Decision {
    type V = Plan;

    open spec fn view(&self) -> Plan {
        match self {
            Decision::Skip(reason) => Plan::Skip(*reason),
            Decision::Unmapped(collection) => Plan::Unmapped(collection@),
            Decision::Invalid(error) => Plan::Invalid(*error),
            Decision::Process(job) => Plan::Process(job@),
        }
    }
}

/// The target key of an object: its key without the staging prefix, however
/// often that is repeated, and without the slashes that follow.
pub open spec fn target_of(policy: Policy, key: Seq<char>) -> Seq<char> {
    without_leading(without_prefix(key, policy.staging_prefix@), '/')
}

/// The collection of a target key: its first path segment.
pub open spec fn collection_of(target: Seq<char>) -> Seq<char> {
    split(target, '/').first()
}

/// What a stamp rule finds in a target key.
pub open spec fn reading(rule: StampRule, target: Seq<char>) -> Result<ReadingView, KeyError> {
    match rule {
        StampRule::Modified => Ok(ReadingView { target, token: None }),
        StampRule::Piece { delimiter, index } => match piece(target, delimiter, index as int) {
            Some(token) => Ok(ReadingView { target, token: Some((Precision::Minute, token)) }),
            None => Err(KeyError::NoToken),
        },
        StampRule::Window { marker, width, delimiter, index } => match first_match(
            target,
            marker@,
        ) {
            None => Err(KeyError::NoMarker),
            Some(start) => if start + width > target.len() {
                Err(KeyError::ShortWindow)
            } else {
                match piece(target.subrange(start, start + width), delimiter, index as int) {
                    Some(token) => Ok(
                        ReadingView {
                            target: target.subrange(0, start) + target.subrange(
                                start + width,
                                target.len() as int,
                            ),
                            token: Some((Precision::Hour, token)),
                        },
                    ),
                    None => Err(KeyError::NoToken),
                }
            },
        },
    }
}

/// The instant of an asset: what the parser makes of the token, or else the
/// time of the last modification.
pub open spec fn instant_read(token: Option<(Precision, Seq<char>)>, modified: Timestamp) -> Option<
    Timestamp,
> {
    match token {
        None => Some(modified),
        Some((Precision::Minute, text)) => instant_of(
            parsed_instant(minute_text(text), COMPACT_FORMAT@),
        ),
        Some((Precision::Hour, text)) => instant_of(
            parsed_instant(hour_text(text), COMPACT_FORMAT@),
        ),
    }
}

/// The key ends with one of the triggers.
pub open spec fn triggered(key: Seq<char>, triggers: Seq<String>) -> bool {
    exists|at: int| 0 <= at < triggers.len() && finishes_with(key, (#[trigger] triggers[at])@)
}

/// The job for an object whose route, target key and date and time are known.
/// `datetime` is the instant of the asset as it is written into documents,
/// if it can be written.
pub open spec fn job_for(
    policy: Policy,
    route: Route,
    key: Seq<char>,
    mode: SweepMode,
    target: Seq<char>,
    datetime: Option<Seq<char>>,
) -> Plan {
    match derived_name(route.asset_rule, last_piece(target, '/')) {
        Err(error) => Plan::Invalid(error),
        Ok(asset_id) => {
            let job = JobView {
                source: key,
                target,
                collection: route.collection@,
                asset_id,
                asset: stored_asset(policy.asset_base@, target),
                copy: key != target,
                work: WorkView::Collection { reload: false },
                delete_source: mode == SweepMode::Staging,
            };
            match route.mode {
                Mode::Manifest { triggers } => Plan::Process(
                    JobView { work: WorkView::Collection { reload: triggered(key, triggers@) }, ..job },
                ),
                Mode::Item { rule, create_missing } => match derived_name(rule, asset_id) {
                    Err(error) => Plan::Invalid(error),
                    Ok(item) => match datetime {
                        None => Plan::Invalid(KeyError::BadTimestamp),
                        Some(text) => Plan::Process(
                            JobView {
                                work: WorkView::Item { item, datetime: text, create_missing },
                                ..job
                            },
                        ),
                    },
                },
            }
        },
    }
}

/// What is decided about the object with this key and time of last
/// modification, in a run of the given mode that began at `now`.
pub open spec fn plan_for(
    policy: Policy,
    key: Seq<char>,
    modified: Timestamp,
    now: Timestamp,
    mode: SweepMode,
) -> Plan {
    match skip_reason(policy, key, mode, age_in_seconds(now, modified)) {
        Some(reason) => Plan::Skip(reason),
        None => {
            let target = target_of(policy, key);
            let collection = collection_of(target);
            if !is_routed(policy.routes@, collection) {
                Plan::Unmapped(collection)
            } else {
                let route = route_of(policy.routes@, collection);
                match reading(route.stamp_rule, target) {
                    Err(error) => Plan::Invalid(error),
                    Ok(read) => match instant_read(read.token, modified) {
                        None => Plan::Invalid(KeyError::BadTimestamp),
                        Some(instant) => job_for(
                            policy,
                            route,
                            key,
                            mode,
                            read.target,
                            rfc3339_text(instant.seconds, instant.nanos),
                        ),
                    },
                }
            }
        },
    }
}

/// The target key of an object.
pub fn target_key(policy: &Policy, key: &str) -> (target: String)
    ensures
        target@ == target_of(*policy, key@),
{
    let stripped = trim_prefix(key, policy.staging_prefix.as_str());
    trim_leading(stripped.as_str(), '/')
}

/// The collection of a target key.
pub fn collection_id(target: &str) -> (collection: String)
    ensures
        collection@ == collection_of(target@),
{
    let pieces = split_text(target, '/');
    assert(views(pieces@).first() == pieces@.first()@);
    copy_text(&pieces[0])
}

impl StampRule {
    /// Finds in a target key what the rule asks for.
    pub fn read(&self, target: &str) -> (found: Result<Reading, KeyError>)
        ensures
            found is Ok == reading(*self, target@) is Ok,
            found matches Ok(read) ==> reading(*self, target@) == Ok::<ReadingView, KeyError>(read@),
            found matches Err(error) ==> reading(*self, target@) == Err::<ReadingView, KeyError>(
                error,
            ),
    {
        match self {
            StampRule::Modified => Ok(Reading { target: target.to_owned(), token: None }),
            StampRule::Piece { delimiter, index } => {
                let pieces = split_text(target, *delimiter);
                if *index < pieces.len() {
                    assert(views(pieces@)[*index as int] == pieces@[*index as int]@);
                    Ok(
                        Reading {
                            target: target.to_owned(),
                            token: Some((Precision::Minute, copy_text(&pieces[*index]))),
                        },
                    )
                } else {
                    Err(KeyError::NoToken)
                }
            },
            StampRule::Window { marker, width, delimiter, index } => {
                let length = target.unicode_len();
                match find(target, marker.as_str()) {
                    None => Err(KeyError::NoMarker),
                    Some(start) => {
                        if *width > length || start > length - *width {
                            return Err(KeyError::ShortWindow);
                        }
                        let end = start + *width;
                        let window = slice(target, start, end);
                        let pieces = split_text(window.as_str(), *delimiter);
                        if *index < pieces.len() {
                            assert(views(pieces@)[*index as int] == pieces@[*index as int]@);
                            let head = slice(target, 0, start);
                            let tail = slice(target, end, length);
                            Ok(
                                Reading {
                                    target: concat(head.as_str(), tail.as_str()),
                                    token: Some((Precision::Hour, copy_text(&pieces[*index]))),
                                },
                            )
                        } else {
                            Err(KeyError::NoToken)
                        }
                    },
                }
            },
        }
    }
}

/// The instant of an asset: what the parser makes of the token, or else the
/// time of the last modification.
pub fn resolve_instant(token: &Option<(Precision, String)>, modified: Timestamp) -> (instant:
    Option<Timestamp>)
    ensures
        instant == instant_read(
            match *token {
                Some((precision, text)) => Some((precision, text@)),
                None => None,
            },
            modified,
        ),
{
    match token {
        None => Some(modified),
        Some((Precision::Minute, text)) => Timestamp::from_compact_minutes(text.as_str()),
        Some((Precision::Hour, text)) => Timestamp::from_compact_hours(text.as_str()),
    }
}

fn ends_with_any(key: &str, triggers: &Vec<String>) -> (found: bool)
    ensures
        found == triggered(key@, triggers@),
{
    let mut at: usize = 0;
    while at < triggers.len()
        invariant
            at <= triggers.len(),
            forall|j: int| 0 <= j < at ==> !finishes_with(key@, (#[trigger] triggers@[j])@),
        decreases triggers.len() - at,
    {
        if ends_with(key, triggers[at].as_str()) {
            return true;
        }
        at += 1;
    }
    false
}

/// Makes the job for an object whose route, target key and date and time
/// are known.
pub fn derive_job(
    policy: &Policy,
    route: &Route,
    key: &str,
    mode: SweepMode,
    target: String,
    datetime: Option<String>,
) -> (decision: Decision)
    ensures
        decision@ == job_for(
            *policy,
            *route,
            key@,
            mode,
            target@,
            match datetime {
                Some(text) => Some(text@),
                None => None,
            },
        ),
{
    let segments = split_text(target.as_str(), '/');
    let name = segments[segments.len() - 1].as_str();
    assert(views(segments@).last() == segments@.last()@);
    let asset_id = match route.asset_rule.apply(name) {
        Ok(asset_id) => asset_id,
        Err(error) => {
            return Decision::Invalid(error);
        },
    };
    let work = match &route.mode {
        Mode::Manifest { triggers } => Work::Collection { reload: ends_with_any(key, triggers) },
        Mode::Item { rule, create_missing } => {
            let item = match rule.apply(asset_id.as_str()) {
                Ok(item) => item,
                Err(error) => {
                    return Decision::Invalid(error);
                },
            };
            match datetime {
                Some(text) => Work::Item { item, datetime: text, create_missing: *create_missing },
                None => {
                    return Decision::Invalid(KeyError::BadTimestamp);
                },
            }
        },
    };
    let asset = Asset::stored(policy.asset_base.as_str(), target.as_str());
    let copy = !same_text(key, target.as_str());
    Decision::Process(
        Job {
            source: key.to_owned(),
            target,
            collection: copy_text(&route.collection),
            asset_id,
            asset,
            copy,
            work,
            delete_source: mode.deletes(),
        },
    )
}

/// Decides what is done with one listed object in a run of the given mode
/// that began at `now`.
pub fn plan_object(policy: &Policy, object: &StoredObject, now: Timestamp, mode: SweepMode) -> (decision:
    Decision)
    requires
        policy.valid(),
    ensures
        decision@ == plan_for(*policy, object.key@, object.last_modified, now, mode),
{
    let key = object.key.as_str();
    let age = age_seconds(now, object.last_modified);
    match eligibility(policy, key, mode, age) {
        Some(reason) => {
            return Decision::Skip(reason);
        },
        None => {},
    }
    let target = target_key(policy, key);
    let collection = collection_id(target.as_str());
    let route = match policy.route(collection.as_str()) {
        Some(route) => route,
        None => {
            return Decision::Unmapped(collection);
        },
    };
    let read = match route.stamp_rule.read(target.as_str()) {
        Ok(read) => read,
        Err(error) => {
            return Decision::Invalid(error);
        },
    };
    let instant = match resolve_instant(&read.token, object.last_modified) {
        Some(instant) => instant,
        None => {
            return Decision::Invalid(KeyError::BadTimestamp);
        },
    };
    let datetime = instant.to_rfc3339();
    derive_job(policy, route, key, mode, read.target, datetime)
}

} // verus!
