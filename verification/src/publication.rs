//! The decisions of the job that publishes an owner's catalog when a notice
//! about the owner arrives: which deliveries it reads, whose catalog it fetches,
//! and where it stores the catalog.
use vstd::prelude::*;
use vstd::string::*;
use crate::notice::{
    law_notice_names_owner, law_notice_text, law_owner_follows_first_separator, owner_from_notice,
    owner_in,
};

verus! {

/// The body of a delivery from the topic: the notice is its `Message`.
#[derive(Debug, PartialEq, Eq)]
pub struct Body {
    pub message: String,
}

/// What one delivery of a batch holds.
#[derive(Debug, PartialEq, Eq)]
pub enum Delivery {
    /// The delivery has no body.
    NoBody,
    /// The body of the delivery.
    Body(String),
}

pub enum DeliveryView {
    NoBody,
    Body(Seq<char>),
}

impl View for Delivery {
    type V = DeliveryView;

    open spec fn view(&self) -> DeliveryView {
        match self {
            Delivery::NoBody => DeliveryView::NoBody,
            Delivery::Body(b) => DeliveryView::Body(b@),
        }
    }
}

/// What a delivery whose body is `body` holds.
pub open spec fn delivery_of(body: Option<String>) -> DeliveryView {
    match body {
        None => DeliveryView::NoBody,
        Some(b) => DeliveryView::Body(b@),
    }
}

/// A record with a body is delivered with that very body; a record without
/// one is delivered as having no body.
pub proof fn law_delivery_keeps_body(body: Option<String>)
    ensures
        body matches Some(b) ==> delivery_of(body) == DeliveryView::Body(b@),
        body is None ==> delivery_of(body) == DeliveryView::NoBody,
{
}

/// The deliveries of a batch whose records have the bodies `bodies`: one per
/// record, in the records' order, so that the notice of every record is
/// handled (a batch may hold notices for several owners).
pub fn deliveries(bodies: &Vec<Option<String>>) -> (res: Vec<Delivery>)
    ensures
        res@.len() == bodies@.len(),
        forall|i: int| 0 <= i < bodies@.len() ==> #[trigger] res@[i]@ == delivery_of(bodies@[i]),
        forall|i: int|
            0 <= i < bodies@.len() ==> match bodies@[i] {
                Some(b) => #[trigger] res@[i] == Delivery::Body(b),
                None => res@[i] == Delivery::NoBody,
            },
{
    let mut res: Vec<Delivery> = Vec::new();
    let mut i: usize = 0;
    while i < bodies.len()
        invariant
            i <= bodies@.len(),
            res@.len() == i,
            forall|j: int| 0 <= j < i ==> #[trigger] res@[j]@ == delivery_of(bodies@[j]),
            forall|j: int|
                0 <= j < i ==> match bodies@[j] {
                    Some(b) => #[trigger] res@[j] == Delivery::Body(b),
                    None => res@[j] == Delivery::NoBody,
                },
        decreases bodies.len() - i,
    {
        let delivery = match &bodies[i] {
            None => Delivery::NoBody,
            Some(body) => Delivery::Body(body.clone()),
        };
        res.push(delivery);
        i = i + 1;
    }
    res
}

/// The address of the catalog service at `base_url`.
pub open spec fn catalog_url_for(base_url: Seq<char>) -> Seq<char> {
    base_url + "/catalog"@
}

/// The file the catalog of `owner` is written to.
pub open spec fn file_for(owner: Seq<char>) -> Seq<char> {
    "/tmp/"@ + owner + "_catalog.json"@
}

/// The key under which the catalog of `owner` is stored.
pub open spec fn key_for(owner: Seq<char>) -> Seq<char> {
    owner + ".json"@
}

/// What the job does with a notice.
#[derive(Debug, PartialEq, Eq)]
pub enum Publication {
    /// The notice does not name an owner; nothing is published.
    Malformed,
    /// Fetch the catalog of `owner` from `catalog_url`, write it to `file`
    /// and store that file under `key`.
    Upload { owner: String, catalog_url: String, file: String, key: String },
}

pub enum PublicationView {
    Malformed,
    Upload { owner: Seq<char>, catalog_url: Seq<char>, file: Seq<char>, key: Seq<char> },
}

impl View for Publication {
    type V = PublicationView;

    open spec fn view(&self) -> PublicationView {
        match self {
            Publication::Malformed => PublicationView::Malformed,
            Publication::Upload { owner, catalog_url, file, key } => PublicationView::Upload {
                owner: owner@,
                catalog_url: catalog_url@,
                file: file@,
                key: key@,
            },
        }
    }
}

/// What the job does with the notice `message` when the service is at
/// `base_url`.
pub open spec fn publication_for(message: Seq<char>, base_url: Seq<char>) -> PublicationView {
    match owner_in(message) {
        None => PublicationView::Malformed,
        Some(owner) => PublicationView::Upload {
            owner,
            catalog_url: catalog_url_for(base_url),
            file: file_for(owner),
            key: key_for(owner),
        },
    }
}

/// Decides what the job does with the notice `message` when the service is
/// at `base_url`.
pub fn plan_publication(message: &str, base_url: &str) -> (res: Publication)
    ensures
        res@ == publication_for(message@, base_url@),
        match res {
            Publication::Upload { owner, catalog_url, file, key } => {
                &&& owner_in(message@) == Some(owner@)
                &&& catalog_url@ == base_url@ + "/catalog"@
                &&& file@ == "/tmp/"@ + owner@ + "_catalog.json"@
                &&& key@ == owner@ + ".json"@
            },
            Publication::Malformed => owner_in(message@) is None,
        },
{
    match owner_from_notice(message) {
        None => Publication::Malformed,
        Some(owner) => {
            let catalog_url = String::from_str(base_url).concat("/catalog");
            let file = String::from_str("/tmp/").concat(owner.as_str()).concat("_catalog.json");
            let key = owner.clone().concat(".json");
            Publication::Upload { owner, catalog_url, file, key }
        },
    }
}

/// A notice that the service published for `owner`, `owner: <owner>`, makes
/// the job fetch the catalog of `owner` from `<base_url>/catalog`, write it to
/// `/tmp/<owner>_catalog.json` and store it under the key `<owner>.json`.
pub proof fn law_notice_publishes_owner_catalog(owner: Seq<char>, base_url: Seq<char>)
    ensures
        publication_for("owner: "@ + owner, base_url) == (PublicationView::Upload {
            owner,
            catalog_url: base_url + "/catalog"@,
            file: "/tmp/"@ + owner + "_catalog.json"@,
            key: owner + ".json"@,
        }),
{
    law_notice_text(owner);
    law_notice_names_owner(owner);
}

/// A message without `": "` names no owner, and the job publishes nothing
/// for it; a message with one always leads to an upload.
pub proof fn law_malformed_message_publishes_nothing(message: Seq<char>, base_url: Seq<char>)
    ensures
        (publication_for(message, base_url) is Malformed) <==> forall|i: int|
            0 <= i && i + 1 < message.len() ==> !(#[trigger] message[i] == ':' && message[i + 1]
                == ' '),
{
    law_owner_follows_first_separator(message);
    if !(publication_for(message, base_url) is Malformed) {
        let o = owner_in(message)->0;
        let i = choose|i: int|
            {
                &&& 0 <= i
                &&& i + 2 + o.len() == message.len()
                &&& message[i] == ':'
                &&& message[i + 1] == ' '
                &&& #[trigger] message.skip(i + 2) == o
                &&& forall|j: int| 0 <= j < i ==> !(#[trigger] message[j] == ':' && message[j + 1] == ' ')
            };
        assert(message[i] == ':' && message[i + 1] == ' ');
    }
}

/// How the service reaches its database.
#[derive(Debug, PartialEq, Eq)]
pub enum MongoAccess {
    /// A full connection string.
    Remote { url: String },
    /// A database service on the local network, with credentials.
    Local { url: String, username: String, password: String },
}

pub enum MongoAccessView {
    Remote { url: Seq<char> },
    Local { url: Seq<char>, username: Seq<char>, password: Seq<char> },
}

impl View for MongoAccess {
    type V = MongoAccessView;

    open spec fn view(&self) -> MongoAccessView {
        match self {
            MongoAccess::Remote { url } => MongoAccessView::Remote { url: url@ },
            MongoAccess::Local { url, username, password } => MongoAccessView::Local {
                url: url@,
                username: username@,
                password: password@,
            },
        }
    }
}

/// The connection string of the database service named `service`.
pub open spec fn local_url_for(service: Seq<char>) -> Seq<char> {
    "mongodb://"@ + service + ":27017"@
}

/// The local connection string names the given service on the standard port.
pub proof fn law_local_url_names_service(service: Seq<char>)
    ensures
        local_url_for(service) == "mongodb://"@ + service + ":27017"@,
{
}

/// Chooses how to reach the database from the settings that are present: a
/// full connection string wins; otherwise the service name and the
/// credentials are all needed, and `None` says that one is missing.
pub fn mongo_access(
    remote_url: Option<String>,
    service: Option<String>,
    username: Option<String>,
    password: Option<String>,
) -> (res: Option<MongoAccess>)
    ensures
        match remote_url {
            Some(url) => res matches Some(MongoAccess::Remote { url: r }) && r@ == url@,
            None => match (service, username, password) {
                (Some(s), Some(u), Some(p)) => res matches Some(
                    MongoAccess::Local { url, username, password },
                ) && url@ == local_url_for(s@) && url@ == "mongodb://"@ + s@ + ":27017"@ && username@
                    == u@ && password@ == p@,
                _ => res is None,
            },
        },
{
    match remote_url {
        Some(url) => Some(MongoAccess::Remote { url }),
        None => match (service, username, password) {
            (Some(s), Some(username), Some(password)) => {
                let url = String::from_str("mongodb://").concat(s.as_str()).concat(":27017");
                Some(MongoAccess::Local { url, username, password })
            },
            _ => None,
        },
    }
}

} // verus!
