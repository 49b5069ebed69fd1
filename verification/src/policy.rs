//! The routing table: which collections are served, and by which rules the
//! names and instants of their assets are derived from object keys.

use vstd::prelude::*;
use vstd::string::*;

use crate::error::KeyError;
use crate::text::{
    copy_text, last_piece, piece, same_text, slice, split, split_text, trim_suffix, views,
    without_suffix,
};

verus! {

/// How a name is derived from a file name.
#[derive(Clone, Debug, PartialEq, Eq)]
pub enum NameRule {
    /// The file name itself.
    Whole,
    /// One fixed name, whatever the file is called.
    Fixed(String),
    /// The piece with the given index among the pieces that the delimiter
    /// separates.
    Piece { delimiter: char, index: usize },
    /// The first characters of the last piece.
    LastPieceHead { delimiter: char, length: usize },
    /// The file name without any repetitions of a suffix at its end.
    TrimSuffix(String),
}

/// Where the instant of an asset comes from.
#[derive(Clone, Debug, PartialEq, Eq)]
pub enum StampRule {
    /// The time at which the store says the object was last modified.
    Modified,
    /// A piece of the target key that holds digits down to the minute.
    Piece { delimiter: char, index: usize },
    /// A piece, with digits down to the hour, of a window of fixed width
    /// that begins with a marker. The window is cut out of the target key.
    Window { marker: String, width: usize, delimiter: char, index: usize },
}

/// What is done with the objects of a collection.
#[derive(Clone, Debug, PartialEq, Eq)]
pub enum Mode {
    /// Objects are attached to the collection itself. One whose key ends
    /// with a trigger is a manifest and replaces the items of the collection.
    Manifest { triggers: Vec<String> },
    /// Objects are attached to an item of the collection. Where
    /// `create_missing` is set, an item that does not exist yet is created.
    Item { rule: NameRule, create_missing: bool },
}

/// The rules of one collection.
#[derive(Clone, Debug, PartialEq, Eq)]
pub struct Route {
    /// Identifier of the collection: the first path segment of a target key.
    pub collection: String,
    /// What is done with its objects.
    pub mode: Mode,
    /// How the asset id is derived from the file name.
    pub asset_rule: NameRule,
    /// Where the instant comes from.
    pub stamp_rule: StampRule,
}

/// Everything that is configured: the thresholds of the freshness filter,
/// the addresses under which assets and items are published, and the routes.
#[derive(Clone, Debug, PartialEq, Eq)]
pub struct Policy {
    /// What staged keys begin with.
    pub staging_prefix: String,
    /// Age in seconds below which an object is left to settle.
    pub settle_seconds: i64,
    /// Age in seconds from which an object is taken up only now and then.
    pub abandon_seconds: i64,
    /// The minutes between two attempts at an abandoned object.
    pub retry_minutes: i64,
    /// Address under which stored files are published.
    pub asset_base: String,
    /// Address of the root of the feature service.
    pub service_root: String,
    /// How many rows one insert statement carries.
    pub batch_size: usize,
    /// The routes. The first one for a collection counts.
    pub routes: Vec<Route>,
}

/// The name that a rule derives from a file name.
pub open spec fn derived_name(rule: NameRule, name: Seq<char>) -> Result<Seq<char>, KeyError> {
    match rule {
        NameRule::Whole => Ok(name),
        NameRule::Fixed(fixed) => Ok(fixed@),
        NameRule::Piece { delimiter, index } => match piece(name, delimiter, index as int) {
            Some(found) => Ok(found),
            None => Err(KeyError::NoToken),
        },
        NameRule::LastPieceHead { delimiter, length } => {
            let last = last_piece(name, delimiter);
            if length <= last.len() {
                Ok(last.subrange(0, length as int))
            } else {
                Err(KeyError::ShortToken)
            }
        },
        NameRule::TrimSuffix(suffix) => Ok(without_suffix(name, suffix@)),
    }
}

/// The route at `at` is the first one for `collection`.
pub open spec fn routed_at(routes: Seq<Route>, collection: Seq<char>, at: int) -> bool {
    &&& 0 <= at < routes.len()
    &&& routes[at].collection@ == collection
    &&& forall|j: int| 0 <= j < at ==> (#[trigger] routes[j]).collection@ != collection
}

/// Some route is for `collection`.
pub open spec fn is_routed(routes: Seq<Route>, collection: Seq<char>) -> bool {
    exists|at: int| routed_at(routes, collection, at)
}

/// The first route for `collection`, for a collection that has one.
pub open spec fn route_of(routes: Seq<Route>, collection: Seq<char>) -> Route {
    routes[choose|at: int| routed_at(routes, collection, at)]
}

/// Two positions that both hold the first route for a collection are one.
pub proof fn lemma_route(routes: Seq<Route>, collection: Seq<char>, at: int)
    requires
        routed_at(routes, collection, at),
    ensures
        is_routed(routes, collection),
        route_of(routes, collection) == routes[at],
{
    let chosen = choose|k: int| routed_at(routes, collection, k);
    assert(routed_at(routes, collection, chosen));
    if chosen < at {
        assert(routes[chosen].collection@ != collection);
    } else if at < chosen {
        assert(routes[at].collection@ != collection);
    }
}

impl NameRule {
    /// Derives a name from a file name.
    pub fn apply(&self, name: &str) -> (derived: Result<String, KeyError>)
        ensures
            derived is Ok == derived_name(*self, name@) is Ok,
            derived matches Ok(text) ==> derived_name(*self, name@) == Ok::<
                Seq<char>,
                KeyError,
            >(text@),
            derived matches Err(error) ==> derived_name(*self, name@) == Err::<
                Seq<char>,
                KeyError,
            >(error),
    {
        match self {
            NameRule::Whole => Ok(name.to_owned()),
            NameRule::Fixed(fixed) => Ok(copy_text(fixed)),
            NameRule::Piece { delimiter, index } => {
                let pieces = split_text(name, *delimiter);
                if *index < pieces.len() {
                    assert(views(pieces@)[*index as int] == pieces@[*index as int]@);
                    Ok(copy_text(&pieces[*index]))
                } else {
                    Err(KeyError::NoToken)
                }
            },
            NameRule::LastPieceHead { delimiter, length } => {
                let pieces = split_text(name, *delimiter);
                let last = pieces[pieces.len() - 1].as_str();
                assert(views(pieces@).last() == pieces@.last()@);
                if *length <= last.unicode_len() {
                    Ok(slice(last, 0, *length))
                } else {
                    Err(KeyError::ShortToken)
                }
            },
            NameRule::TrimSuffix(suffix) => Ok(trim_suffix(name, suffix.as_str())),
        }
    }
}

impl Policy {
    /// The thresholds can be worked with: there is something to strip from
    /// staged keys, no age threshold lies in the future, time passes between
    /// two attempts, and a batch holds rows.
    pub open spec fn valid(&self) -> bool {
        &&& self.staging_prefix@.len() > 0
        &&& self.settle_seconds >= 0
        &&& self.abandon_seconds >= 0
        &&& self.retry_minutes > 0
        &&& self.batch_size > 0
    }

    /// Whether the thresholds can be worked with.
    pub fn is_valid(&self) -> (valid: bool)
        ensures
            valid == self.valid(),
    {
        self.staging_prefix.as_str().unicode_len() > 0 && self.settle_seconds >= 0
            && self.abandon_seconds >= 0 && self.retry_minutes > 0 && self.batch_size > 0
    }

    /// The first route for a collection.
    pub fn route(&self, collection: &str) -> (found: Option<&Route>)
        ensures
            found is Some == is_routed(self.routes@, collection@),
            found matches Some(route) ==> *route == route_of(self.routes@, collection@),
    {
        let mut at: usize = 0;
        while at < self.routes.len()
            invariant
                at <= self.routes.len(),
                forall|j: int| 0 <= j < at ==> (#[trigger] self.routes@[j]).collection@ != collection@,
            decreases self.routes.len() - at,
        {
            if same_text(self.routes[at].collection.as_str(), collection) {
                proof {
                    lemma_route(self.routes@, collection@, at as int);
                }
                return Some(&self.routes[at]);
            }
            at += 1;
        }
        proof {
            if is_routed(self.routes@, collection@) {
                let k = choose|k: int| routed_at(self.routes@, collection@, k);
                assert(self.routes@[k].collection@ == collection@);
            }
        }
        None
    }
}

} // verus!
