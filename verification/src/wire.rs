//! The messages exchanged with the mesh and with relay sessions, and their
//! JSON form.

use crate::json::{
    array, field_views, json_bytes, json_of_bytes, json_of_text, json_text, json_views, lookup,
    object, parse_bytes, parse_text, render_bytes, render_text, text, Json, JsonView,
};
use crate::peer::{clone_peers, peer_views, PeerInfo, PeerInfoView};
use crate::post::{clone_opt_string, clone_posts, opt_text, post_views, Post, PostView};
use crate::text::str_eq;
use vstd::prelude::*;

verus! {

/// A message broadcast on the mesh.
#[derive(Debug)]
pub enum NetworkMessage {
    Post(Post),
    Heartbeat,
}

/// The mathematical value of a [`NetworkMessage`].
pub ghost enum NetworkMessageView {
    Post(PostView),
    Heartbeat,
}

impl View for NetworkMessage {
    type V = NetworkMessageView;

    open spec fn view(&self) -> NetworkMessageView {
        match self {
            NetworkMessage::Post(p) => NetworkMessageView::Post(p@),
            NetworkMessage::Heartbeat => NetworkMessageView::Heartbeat,
        }
    }
}

/// A message between a hub and a relay session.
///
/// A hub sends `Snapshot` once when a session becomes active, then
/// `PostAnnounce`, `PeerUpdate` and `PeerRemove` as its state changes, and
/// `Pong` in answer to `Ping`. A session sends `PostSubmit` and `Ping`.
#[derive(Debug)]
pub enum RelayMessage {
    Snapshot { identity: Option<String>, peers: Option<Vec<PeerInfo>>, posts: Option<Vec<Post>> },
    PostAnnounce { post: Post },
    PeerUpdate { peer: PeerInfo },
    PeerRemove { peer_id: String },
    PostSubmit { content: String, author_name: Option<String> },
    Ping,
    Pong,
}

/// The mathematical value of a [`RelayMessage`].
pub ghost enum RelayMessageView {
    Snapshot {
        identity: Option<Seq<char>>,
        peers: Option<Seq<PeerInfoView>>,
        posts: Option<Seq<PostView>>,
    },
    PostAnnounce { post: PostView },
    PeerUpdate { peer: PeerInfoView },
    PeerRemove { peer_id: Seq<char> },
    PostSubmit { content: Seq<char>, author_name: Option<Seq<char>> },
    Ping,
    Pong,
}

/// The views of an optional list of posts.
pub open spec fn opt_post_views(posts: Option<Vec<Post>>) -> Option<Seq<PostView>> {
    match posts {
        Some(v) => Some(post_views(v@)),
        None => None,
    }
}

/// The views of an optional list of peer records.
pub open spec fn opt_peer_views(peers: Option<Vec<PeerInfo>>) -> Option<Seq<PeerInfoView>> {
    match peers {
        Some(v) => Some(peer_views(v@)),
        None => None,
    }
}

impl View for RelayMessage {
    type V = RelayMessageView;

    open spec fn view(&self) -> RelayMessageView {
        match self {
            RelayMessage::Snapshot { identity, peers, posts } => RelayMessageView::Snapshot {
                identity: opt_text(*identity),
                peers: opt_peer_views(*peers),
                posts: opt_post_views(*posts),
            },
            RelayMessage::PostAnnounce { post } => RelayMessageView::PostAnnounce { post: post@ },
            RelayMessage::PeerUpdate { peer } => RelayMessageView::PeerUpdate { peer: peer@ },
            RelayMessage::PeerRemove { peer_id } => RelayMessageView::PeerRemove {
                peer_id: peer_id@,
            },
            RelayMessage::PostSubmit { content, author_name } => RelayMessageView::PostSubmit {
                content: content@,
                author_name: opt_text(*author_name),
            },
            RelayMessage::Ping => RelayMessageView::Ping,
            RelayMessage::Pong => RelayMessageView::Pong,
        }
    }
}

impl Clone for RelayMessage {
    fn clone(&self) -> (r: Self)
        ensures
            r@ == self@,
    {
        match self {
            RelayMessage::Snapshot { identity, peers, posts } => RelayMessage::Snapshot {
                identity: clone_opt_string(identity),
                peers: match peers {
                    Some(v) => Some(clone_peers(v)),
                    None => None,
                },
                posts: match posts {
                    Some(v) => Some(clone_posts(v)),
                    None => None,
                },
            },
            RelayMessage::PostAnnounce { post } => RelayMessage::PostAnnounce { post: post.clone() },
            RelayMessage::PeerUpdate { peer } => RelayMessage::PeerUpdate { peer: peer.clone() },
            RelayMessage::PeerRemove { peer_id } => RelayMessage::PeerRemove {
                peer_id: peer_id.clone(),
            },
            RelayMessage::PostSubmit { content, author_name } => RelayMessage::PostSubmit {
                content: content.clone(),
                author_name: clone_opt_string(author_name),
            },
            RelayMessage::Ping => RelayMessage::Ping,
            RelayMessage::Pong => RelayMessage::Pong,
        }
    }
}

// ---------------------------------------------------------------------------
// Reading fields
// ---------------------------------------------------------------------------

/// The string under `key`, where the document is an object that has one.
pub open spec fn text_field(j: JsonView, key: Seq<char>) -> Option<Seq<char>> {
    match j.field(key) {
        Some(v) => v.text(),
        None => None,
    }
}

/// The integer under `key`, where the document is an object that has one.
pub open spec fn int_field(j: JsonView, key: Seq<char>) -> Option<i64> {
    match j.field(key) {
        Some(v) => v.integer(),
        None => None,
    }
}

/// The truth value under `key`, where the document is an object that has
/// one.
pub open spec fn bool_field(j: JsonView, key: Seq<char>) -> Option<bool> {
    match j.field(key) {
        Some(v) => v.boolean(),
        None => None,
    }
}

/// The elements of the array under `key`, where the document is an object
/// that has one.
pub open spec fn array_field(j: JsonView, key: Seq<char>) -> Option<Seq<JsonView>> {
    match j.field(key) {
        Some(v) => v.items(),
        None => None,
    }
}

/// An optional label under `key`: none where the field is missing or `null`,
/// the string where it is one, and a fault (the outer `None`) where it is
/// anything else.
pub open spec fn label_field(j: JsonView, key: Seq<char>) -> Option<Option<Seq<char>>> {
    match j.field(key) {
        None => Some(None),
        Some(JsonView::Null) => Some(None),
        Some(JsonView::Text(s)) => Some(Some(s)),
        Some(_) => None,
    }
}

fn read_text(j: &Json, key: &str) -> (r: Option<String>)
    ensures
        opt_text(r) == text_field(j@, key@),
{
    match j.field(key) {
        Some(v) => match v.as_text() {
            Some(s) => Some(s.clone()),
            None => None,
        },
        None => None,
    }
}

fn read_int(j: &Json, key: &str) -> (r: Option<i64>)
    ensures
        r == int_field(j@, key@),
{
    match j.field(key) {
        Some(v) => v.as_int(),
        None => None,
    }
}

fn read_bool(j: &Json, key: &str) -> (r: Option<bool>)
    ensures
        r == bool_field(j@, key@),
{
    match j.field(key) {
        Some(v) => v.as_bool(),
        None => None,
    }
}

fn read_label(j: &Json, key: &str) -> (r: Option<Option<String>>)
    ensures
        match r {
            Some(label) => label_field(j@, key@) == Some(opt_text(label)),
            None => label_field(j@, key@) is None,
        },
{
    match j.field(key) {
        None => Some(None),
        Some(v) => match v {
            Json::Null => Some(None),
            Json::Text(s) => Some(Some(s.clone())),
            _ => None,
        },
    }
}

// ---------------------------------------------------------------------------
// Posts and peer records
// ---------------------------------------------------------------------------

/// The field that carries an optional label: none where there is no label.
pub open spec fn label_json(key: Seq<char>, label: Option<Seq<char>>) -> Seq<(Seq<char>, JsonView)> {
    match label {
        Some(s) => seq![(key, JsonView::Text(s))],
        None => Seq::empty(),
    }
}

/// The JSON form of a post: an object with `id`, `author`, `author_name`
/// where the post has one, `content` and `timestamp`.
pub open spec fn post_json(p: PostView) -> JsonView {
    JsonView::Object(
        seq![("id"@, JsonView::Text(p.id)), ("author"@, JsonView::Text(p.author))] + label_json(
            "author_name"@,
            p.author_name,
        ) + seq![("content"@, JsonView::Text(p.content)), ("timestamp"@, JsonView::Int(p.timestamp))],
    )
}

/// The post that a document stands for: an object whose `id`, `author` and
/// `content` are strings, whose `timestamp` is an integer and whose
/// `author_name`, if there, is a string or `null`. Other fields are passed
/// over.
pub open spec fn post_of_json(j: JsonView) -> Option<PostView> {
    if text_field(j, "id"@) is Some && text_field(j, "author"@) is Some && label_field(
        j,
        "author_name"@,
    ) is Some && text_field(j, "content"@) is Some && int_field(j, "timestamp"@) is Some {
        Some(
            PostView {
                id: text_field(j, "id"@)->0,
                author: text_field(j, "author"@)->0,
                author_name: label_field(j, "author_name"@)->0,
                content: text_field(j, "content"@)->0,
                timestamp: int_field(j, "timestamp"@)->0,
            },
        )
    } else {
        None
    }
}

/// The JSON form of a peer record: an object with `peer_id`, `address`,
/// `name` where the record has one, and `is_browser`.
pub open spec fn peer_json(p: PeerInfoView) -> JsonView {
    JsonView::Object(
        seq![("peer_id"@, JsonView::Text(p.peer_id)), ("address"@, JsonView::Text(p.address))]
            + label_json("name"@, p.name) + seq![("is_browser"@, JsonView::Bool(p.is_browser))],
    )
}

/// The peer record that a document stands for: an object whose `peer_id`
/// and `address` are strings, whose `is_browser` is a truth value and whose
/// `name`, if there, is a string or `null`.
pub open spec fn peer_of_json(j: JsonView) -> Option<PeerInfoView> {
    if text_field(j, "peer_id"@) is Some && text_field(j, "address"@) is Some && label_field(
        j,
        "name"@,
    ) is Some && bool_field(j, "is_browser"@) is Some {
        Some(
            PeerInfoView {
                peer_id: text_field(j, "peer_id"@)->0,
                address: text_field(j, "address"@)->0,
                name: label_field(j, "name"@)->0,
                is_browser: bool_field(j, "is_browser"@)->0,
            },
        )
    } else {
        None
    }
}

/// The view of an optional post.
pub open spec fn opt_post_view(p: Option<Post>) -> Option<PostView> {
    match p {
        Some(x) => Some(x@),
        None => None,
    }
}

/// The view of an optional peer record.
pub open spec fn opt_peer_view(p: Option<PeerInfo>) -> Option<PeerInfoView> {
    match p {
        Some(x) => Some(x@),
        None => None,
    }
}

fn push_label(fields: &mut Vec<(String, Json)>, key: &str, label: &Option<String>)
    ensures
        field_views(final(fields)@) == field_views(old(fields)@) + label_json(key@, opt_text(*label)),
{
    match label {
        Some(s) => {
            fields.push((key.to_owned(), Json::Text(s.clone())));
            assert(field_views(fields@) =~= field_views(old(fields)@) + label_json(
                key@,
                opt_text(*label),
            ));
        },
        None => {
            assert(field_views(fields@) =~= field_views(old(fields)@) + label_json(
                key@,
                opt_text(*label),
            ));
        },
    }
}

/// Writes a post as a JSON document.
pub fn encode_post(p: &Post) -> (r: Json)
    ensures
        r@ == post_json(p@),
{
    let mut fields: Vec<(String, Json)> = Vec::new();
    fields.push(("id".to_owned(), Json::Text(p.id.clone())));
    fields.push(("author".to_owned(), Json::Text(p.author.clone())));
    let ghost head = field_views(fields@);
    assert(head =~= seq![("id"@, JsonView::Text(p@.id)), ("author"@, JsonView::Text(p@.author))]);
    push_label(&mut fields, "author_name", &p.author_name);
    let ghost mid = field_views(fields@);
    fields.push(("content".to_owned(), Json::Text(p.content.clone())));
    fields.push(("timestamp".to_owned(), Json::Int(p.timestamp)));
    assert(field_views(fields@) =~= mid + seq![
        ("content"@, JsonView::Text(p@.content)),
        ("timestamp"@, JsonView::Int(p@.timestamp)),
    ]);
    object(fields)
}

/// Reads a post from a JSON document; `None` where the document is none.
pub fn decode_post(j: &Json) -> (r: Option<Post>)
    ensures
        opt_post_view(r) == post_of_json(j@),
{
    let id = match read_text(j, "id") {
        Some(s) => s,
        None => { return None; },
    };
    let author = match read_text(j, "author") {
        Some(s) => s,
        None => { return None; },
    };
    let author_name = match read_label(j, "author_name") {
        Some(l) => l,
        None => { return None; },
    };
    let content = match read_text(j, "content") {
        Some(s) => s,
        None => { return None; },
    };
    let timestamp = match read_int(j, "timestamp") {
        Some(n) => n,
        None => { return None; },
    };
    Some(Post { id, author, author_name, content, timestamp })
}

/// Writes a peer record as a JSON document.
pub fn encode_peer(p: &PeerInfo) -> (r: Json)
    ensures
        r@ == peer_json(p@),
{
    let mut fields: Vec<(String, Json)> = Vec::new();
    fields.push(("peer_id".to_owned(), Json::Text(p.peer_id.clone())));
    fields.push(("address".to_owned(), Json::Text(p.address.clone())));
    assert(field_views(fields@) =~= seq![
        ("peer_id"@, JsonView::Text(p@.peer_id)),
        ("address"@, JsonView::Text(p@.address)),
    ]);
    push_label(&mut fields, "name", &p.name);
    let ghost mid = field_views(fields@);
    fields.push(("is_browser".to_owned(), Json::Bool(p.is_browser)));
    assert(field_views(fields@) =~= mid + seq![("is_browser"@, JsonView::Bool(p@.is_browser))]);
    object(fields)
}

/// Reads a peer record from a JSON document; `None` where the document is
/// none.
pub fn decode_peer(j: &Json) -> (r: Option<PeerInfo>)
    ensures
        opt_peer_view(r) == peer_of_json(j@),
{
    let peer_id = match read_text(j, "peer_id") {
        Some(s) => s,
        None => { return None; },
    };
    let address = match read_text(j, "address") {
        Some(s) => s,
        None => { return None; },
    };
    let name = match read_label(j, "name") {
        Some(l) => l,
        None => { return None; },
    };
    let is_browser = match read_bool(j, "is_browser") {
        Some(b) => b,
        None => { return None; },
    };
    Some(PeerInfo { peer_id, address, name, is_browser })
}

// ---------------------------------------------------------------------------
// Lists
// ---------------------------------------------------------------------------

/// The JSON forms of a list of posts, in order.
pub open spec fn posts_json(posts: Seq<PostView>) -> Seq<JsonView> {
    posts.map_values(|p: PostView| post_json(p))
}

/// The JSON forms of a list of peer records, in order.
pub open spec fn peers_json(peers: Seq<PeerInfoView>) -> Seq<JsonView> {
    peers.map_values(|p: PeerInfoView| peer_json(p))
}

/// The posts among the elements of an array, in order; an element that is
/// no post is passed over.
pub open spec fn posts_of_items(items: Seq<JsonView>) -> Seq<PostView>
    decreases items.len(),
{
    if items.len() == 0 {
        Seq::empty()
    } else {
        let init = posts_of_items(items.drop_last());
        match post_of_json(items.last()) {
            Some(p) => init.push(p),
            None => init,
        }
    }
}

/// The peer records among the elements of an array, in order; an element
/// that is no record is passed over.
pub open spec fn peers_of_items(items: Seq<JsonView>) -> Seq<PeerInfoView>
    decreases items.len(),
{
    if items.len() == 0 {
        Seq::empty()
    } else {
        let init = peers_of_items(items.drop_last());
        match peer_of_json(items.last()) {
            Some(p) => init.push(p),
            None => init,
        }
    }
}

fn encode_posts(posts: &Vec<Post>) -> (r: Json)
    ensures
        r@ == JsonView::Array(posts_json(post_views(posts@))),
{
    let mut items: Vec<Json> = Vec::new();
    let mut i: usize = 0;
    while i < posts.len()
        invariant
            i <= posts.len(),
            items@.len() == i,
            forall|k: int| 0 <= k < i ==> (#[trigger] items@[k])@ == post_json(posts@[k]@),
        decreases posts.len() - i,
    {
        items.push(encode_post(&posts[i]));
        i += 1;
    }
    assert(json_views(items@) =~= posts_json(post_views(posts@)));
    array(items)
}

fn encode_peers(peers: &Vec<PeerInfo>) -> (r: Json)
    ensures
        r@ == JsonView::Array(peers_json(peer_views(peers@))),
{
    let mut items: Vec<Json> = Vec::new();
    let mut i: usize = 0;
    while i < peers.len()
        invariant
            i <= peers.len(),
            items@.len() == i,
            forall|k: int| 0 <= k < i ==> (#[trigger] items@[k])@ == peer_json(peers@[k]@),
        decreases peers.len() - i,
    {
        items.push(encode_peer(&peers[i]));
        i += 1;
    }
    assert(json_views(items@) =~= peers_json(peer_views(peers@)));
    array(items)
}

fn decode_posts(items: &Vec<Json>) -> (r: Vec<Post>)
    ensures
        post_views(r@) == posts_of_items(json_views(items@)),
{
    let ghost all = json_views(items@);
    let mut out: Vec<Post> = Vec::new();
    let mut i: usize = 0;
    assert(post_views(out@) =~= posts_of_items(all.take(0)));
    while i < items.len()
        invariant
            i <= items.len(),
            all == json_views(items@),
            post_views(out@) == posts_of_items(all.take(i as int)),
        decreases items.len() - i,
    {
        let ghost before = post_views(out@);
        assert(all.take(i + 1).drop_last() =~= all.take(i as int));
        assert(all.take(i + 1).last() == items@[i as int]@);
        match decode_post(&items[i]) {
            Some(p) => {
                out.push(p);
                assert(post_views(out@) =~= before.push(p@));
            },
            None => {},
        }
        i += 1;
    }
    assert(all.take(i as int) =~= all);
    out
}

fn decode_peers(items: &Vec<Json>) -> (r: Vec<PeerInfo>)
    ensures
        peer_views(r@) == peers_of_items(json_views(items@)),
{
    let ghost all = json_views(items@);
    let mut out: Vec<PeerInfo> = Vec::new();
    let mut i: usize = 0;
    assert(peer_views(out@) =~= peers_of_items(all.take(0)));
    while i < items.len()
        invariant
            i <= items.len(),
            all == json_views(items@),
            peer_views(out@) == peers_of_items(all.take(i as int)),
        decreases items.len() - i,
    {
        let ghost before = peer_views(out@);
        assert(all.take(i + 1).drop_last() =~= all.take(i as int));
        assert(all.take(i + 1).last() == items@[i as int]@);
        match decode_peer(&items[i]) {
            Some(p) => {
                out.push(p);
                assert(peer_views(out@) =~= before.push(p@));
            },
            None => {},
        }
        i += 1;
    }
    assert(all.take(i as int) =~= all);
    out
}

// ---------------------------------------------------------------------------
// Mesh messages
// ---------------------------------------------------------------------------

/// The JSON form of a mesh message: an object with the single field `Post`
/// for a post, the string `Heartbeat` for a heartbeat.
pub open spec fn network_json(m: NetworkMessageView) -> JsonView {
    match m {
        NetworkMessageView::Post(p) => JsonView::Object(seq![("Post"@, post_json(p))]),
        NetworkMessageView::Heartbeat => JsonView::Text("Heartbeat"@),
    }
}

/// The mesh message that a document stands for: the string `Heartbeat`, or
/// an object with one field, which is either `Post` over a post or
/// `Heartbeat` over `null`.
pub open spec fn network_of_json(j: JsonView) -> Option<NetworkMessageView> {
    match j {
        JsonView::Text(s) => if s == "Heartbeat"@ {
            Some(NetworkMessageView::Heartbeat)
        } else {
            None
        },
        JsonView::Object(fields) => if fields.len() != 1 {
            None
        } else if fields[0].0 == "Post"@ {
            match post_of_json(fields[0].1) {
                Some(p) => Some(NetworkMessageView::Post(p)),
                None => None,
            }
        } else if fields[0].0 == "Heartbeat"@ && fields[0].1 == JsonView::Null {
            Some(NetworkMessageView::Heartbeat)
        } else {
            None
        },
        _ => None,
    }
}

/// The view of an optional mesh message.
pub open spec fn opt_network_view(m: Option<NetworkMessage>) -> Option<NetworkMessageView> {
    match m {
        Some(x) => Some(x@),
        None => None,
    }
}

/// Writes a mesh message as a JSON document.
pub fn network_to_json(m: &NetworkMessage) -> (r: Json)
    ensures
        r@ == network_json(m@),
{
    match m {
        NetworkMessage::Post(p) => {
            let mut fields: Vec<(String, Json)> = Vec::new();
            fields.push(("Post".to_owned(), encode_post(p)));
            assert(field_views(fields@) =~= seq![("Post"@, post_json(p@))]);
            object(fields)
        },
        NetworkMessage::Heartbeat => text("Heartbeat"),
    }
}

/// Reads a mesh message from a JSON document; `None` where the document is
/// none.
pub fn network_from_json(j: &Json) -> (r: Option<NetworkMessage>)
    ensures
        opt_network_view(r) == network_of_json(j@),
{
    match j {
        Json::Text(s) => {
            if str_eq(s.as_str(), "Heartbeat") {
                Some(NetworkMessage::Heartbeat)
            } else {
                None
            }
        },
        Json::Object(fields) => {
            if fields.len() != 1 {
                return None;
            }
            assert(j@->Object_0[0] == (fields@[0].0@, fields@[0].1@));
            if str_eq(fields[0].0.as_str(), "Post") {
                match decode_post(&fields[0].1) {
                    Some(p) => Some(NetworkMessage::Post(p)),
                    None => None,
                }
            } else if str_eq(fields[0].0.as_str(), "Heartbeat") && fields[0].1.is_null() {
                Some(NetworkMessage::Heartbeat)
            } else {
                None
            }
        },
        _ => None,
    }
}

/// The mesh message that bytes stand for, if they are the JSON form of one.
pub open spec fn network_of_bytes(bytes: Seq<u8>) -> Option<NetworkMessageView> {
    match json_of_bytes(bytes) {
        Some(j) => network_of_json(j),
        None => None,
    }
}

/// Writes a mesh message as the bytes that are broadcast.
pub fn encode_network_message(m: &NetworkMessage) -> (r: Vec<u8>)
    ensures
        r@ == json_bytes(network_json(m@)),
{
    let j = network_to_json(m);
    render_bytes(&j)
}

/// Reads a mesh message from bytes that were received; `None` where they
/// are no JSON or no message.
pub fn decode_network_message(bytes: &[u8]) -> (r: Option<NetworkMessage>)
    ensures
        opt_network_view(r) == network_of_bytes(bytes@),
{
    match parse_bytes(bytes) {
        Some(j) => network_from_json(&j),
        None => None,
    }
}

// ---------------------------------------------------------------------------
// Relay messages
// ---------------------------------------------------------------------------

/// The field that carries an optional array: none where there is no list.
pub open spec fn list_json(key: Seq<char>, items: Option<Seq<JsonView>>) -> Seq<(Seq<char>, JsonView)> {
    match items {
        Some(s) => seq![(key, JsonView::Array(s))],
        None => Seq::empty(),
    }
}

/// The JSON forms of an optional list of posts.
pub open spec fn opt_posts_json(posts: Option<Seq<PostView>>) -> Option<Seq<JsonView>> {
    match posts {
        Some(s) => Some(posts_json(s)),
        None => None,
    }
}

/// The JSON forms of an optional list of peer records.
pub open spec fn opt_peers_json(peers: Option<Seq<PeerInfoView>>) -> Option<Seq<JsonView>> {
    match peers {
        Some(s) => Some(peers_json(s)),
        None => None,
    }
}

/// The JSON form of a relay message: an object whose `type` names the
/// message, followed by what the message carries.
pub open spec fn relay_json(m: RelayMessageView) -> JsonView {
    match m {
        RelayMessageView::Snapshot { identity, peers, posts } => JsonView::Object(
            seq![("type"@, JsonView::Text("init"@))] + label_json("peer_id"@, identity) + list_json(
                "peers"@,
                opt_peers_json(peers),
            ) + list_json("posts"@, opt_posts_json(posts)),
        ),
        RelayMessageView::PostAnnounce { post } => JsonView::Object(
            seq![("type"@, JsonView::Text("new_post"@)), ("post"@, post_json(post))],
        ),
        RelayMessageView::PeerUpdate { peer } => JsonView::Object(
            seq![("type"@, JsonView::Text("peer_joined"@)), ("peer"@, peer_json(peer))],
        ),
        RelayMessageView::PeerRemove { peer_id } => JsonView::Object(
            seq![("type"@, JsonView::Text("peer_left"@)), ("peer_id"@, JsonView::Text(peer_id))],
        ),
        RelayMessageView::PostSubmit { content, author_name } => JsonView::Object(
            seq![("type"@, JsonView::Text("post"@)), ("content"@, JsonView::Text(content))]
                + label_json("author_name"@, author_name),
        ),
        RelayMessageView::Ping => JsonView::Object(seq![("type"@, JsonView::Text("ping"@))]),
        RelayMessageView::Pong => JsonView::Object(seq![("type"@, JsonView::Text("pong"@))]),
    }
}

/// The message that a document names under `type`; the empty string where
/// it names none.
pub open spec fn message_type(j: JsonView) -> Seq<char> {
    match text_field(j, "type"@) {
        Some(t) => t,
        None => ""@,
    }
}

/// The document that carries the post of an announcement: the field `post`,
/// else the field `Post`, else the announcement itself.
pub open spec fn announced(j: JsonView) -> JsonView {
    match j.field("post"@) {
        Some(p) => p,
        None => match j.field("Post"@) {
            Some(p) => p,
            None => j,
        },
    }
}

/// The posts of the array under `key`, if there is one.
pub open spec fn posts_field(j: JsonView, key: Seq<char>) -> Option<Seq<PostView>> {
    match array_field(j, key) {
        Some(items) => Some(posts_of_items(items)),
        None => None,
    }
}

/// The peer records of the array under `key`, if there is one.
pub open spec fn peers_field(j: JsonView, key: Seq<char>) -> Option<Seq<PeerInfoView>> {
    match array_field(j, key) {
        Some(items) => Some(peers_of_items(items)),
        None => None,
    }
}

/// The relay message that a document stands for, by its `type`:
/// `init` is a snapshot with whatever of identity, peers and posts it
/// carries; `new_post` (or `Post`) announces the post it carries; `post`
/// submits its `content`; `peer_joined` and `peer_left` carry a change of
/// the directory; `ping` and `pong` carry nothing. Anything else is no
/// message.
pub open spec fn relay_of_json(j: JsonView) -> Option<RelayMessageView> {
    let t = message_type(j);
    if t == "init"@ {
        Some(
            RelayMessageView::Snapshot {
                identity: text_field(j, "peer_id"@),
                peers: peers_field(j, "peers"@),
                posts: posts_field(j, "posts"@),
            },
        )
    } else if t == "new_post"@ || t == "Post"@ {
        match post_of_json(announced(j)) {
            Some(post) => Some(RelayMessageView::PostAnnounce { post }),
            None => None,
        }
    } else if t == "peer_joined"@ {
        match j.field("peer"@) {
            Some(p) => match peer_of_json(p) {
                Some(peer) => Some(RelayMessageView::PeerUpdate { peer }),
                None => None,
            },
            None => None,
        }
    } else if t == "peer_left"@ {
        match text_field(j, "peer_id"@) {
            Some(peer_id) => Some(RelayMessageView::PeerRemove { peer_id }),
            None => None,
        }
    } else if t == "post"@ {
        if text_field(j, "content"@) is Some && label_field(j, "author_name"@) is Some {
            Some(
                RelayMessageView::PostSubmit {
                    content: text_field(j, "content"@)->0,
                    author_name: label_field(j, "author_name"@)->0,
                },
            )
        } else {
            None
        }
    } else if t == "ping"@ {
        Some(RelayMessageView::Ping)
    } else if t == "pong"@ {
        Some(RelayMessageView::Pong)
    } else {
        None
    }
}

/// The view of an optional relay message.
pub open spec fn opt_relay_view(m: Option<RelayMessage>) -> Option<RelayMessageView> {
    match m {
        Some(x) => Some(x@),
        None => None,
    }
}

fn tagged(tag: &str) -> (r: Vec<(String, Json)>)
    ensures
        field_views(r@) == seq![("type"@, JsonView::Text(tag@))],
{
    let mut fields: Vec<(String, Json)> = Vec::new();
    fields.push(("type".to_owned(), text(tag)));
    assert(field_views(fields@) =~= seq![("type"@, JsonView::Text(tag@))]);
    fields
}

/// Writes a relay message as a JSON document.
pub fn relay_to_json(m: &RelayMessage) -> (r: Json)
    ensures
        r@ == relay_json(m@),
{
    match m {
        RelayMessage::Snapshot { identity, peers, posts } => {
            let mut fields = tagged("init");
            push_label(&mut fields, "peer_id", identity);
            let ghost a = field_views(fields@);
            match peers {
                Some(v) => {
                    fields.push(("peers".to_owned(), encode_peers(v)));
                },
                None => {},
            }
            assert(field_views(fields@) =~= a + list_json(
                "peers"@,
                opt_peers_json(opt_peer_views(*peers)),
            ));
            let ghost b = field_views(fields@);
            match posts {
                Some(v) => {
                    fields.push(("posts".to_owned(), encode_posts(v)));
                },
                None => {},
            }
            assert(field_views(fields@) =~= b + list_json(
                "posts"@,
                opt_posts_json(opt_post_views(*posts)),
            ));
            object(fields)
        },
        RelayMessage::PostAnnounce { post } => {
            let mut fields = tagged("new_post");
            let ghost head = field_views(fields@);
            fields.push(("post".to_owned(), encode_post(post)));
            assert(field_views(fields@) =~= head.push(("post"@, post_json(post@))));
            assert(field_views(fields@) =~= seq![
                ("type"@, JsonView::Text("new_post"@)),
                ("post"@, post_json(post@)),
            ]);
            object(fields)
        },
        RelayMessage::PeerUpdate { peer } => {
            let mut fields = tagged("peer_joined");
            let ghost head = field_views(fields@);
            fields.push(("peer".to_owned(), encode_peer(peer)));
            assert(field_views(fields@) =~= head.push(("peer"@, peer_json(peer@))));
            assert(field_views(fields@) =~= seq![
                ("type"@, JsonView::Text("peer_joined"@)),
                ("peer"@, peer_json(peer@)),
            ]);
            object(fields)
        },
        RelayMessage::PeerRemove { peer_id } => {
            let mut fields = tagged("peer_left");
            let ghost head = field_views(fields@);
            fields.push(("peer_id".to_owned(), Json::Text(peer_id.clone())));
            assert(field_views(fields@) =~= head.push(("peer_id"@, JsonView::Text(peer_id@))));
            assert(field_views(fields@) =~= seq![
                ("type"@, JsonView::Text("peer_left"@)),
                ("peer_id"@, JsonView::Text(peer_id@)),
            ]);
            object(fields)
        },
        RelayMessage::PostSubmit { content, author_name } => {
            let mut fields = tagged("post");
            let ghost head = field_views(fields@);
            fields.push(("content".to_owned(), Json::Text(content.clone())));
            assert(field_views(fields@) =~= head.push(("content"@, JsonView::Text(content@))));
            assert(field_views(fields@) =~= seq![
                ("type"@, JsonView::Text("post"@)),
                ("content"@, JsonView::Text(content@)),
            ]);
            push_label(&mut fields, "author_name", author_name);
            object(fields)
        },
        RelayMessage::Ping => object(tagged("ping")),
        RelayMessage::Pong => object(tagged("pong")),
    }
}

fn read_posts(j: &Json, key: &str) -> (r: Option<Vec<Post>>)
    ensures
        opt_post_views(r) == posts_field(j@, key@),
{
    match j.field(key) {
        Some(v) => match v.as_items() {
            Some(items) => Some(decode_posts(items)),
            None => None,
        },
        None => None,
    }
}

fn read_peers(j: &Json, key: &str) -> (r: Option<Vec<PeerInfo>>)
    ensures
        opt_peer_views(r) == peers_field(j@, key@),
{
    match j.field(key) {
        Some(v) => match v.as_items() {
            Some(items) => Some(decode_peers(items)),
            None => None,
        },
        None => None,
    }
}

fn read_announced(j: &Json) -> (r: &Json)
    ensures
        r@ == announced(j@),
{
    match j.field("post") {
        Some(p) => p,
        None => match j.field("Post") {
            Some(p) => p,
            None => j,
        },
    }
}

/// Reads a relay message from a JSON document; `None` where the document is
/// none.
pub fn relay_from_json(j: &Json) -> (r: Option<RelayMessage>)
    ensures
        opt_relay_view(r) == relay_of_json(j@),
{
    let tag = match read_text(j, "type") {
        Some(t) => t,
        None => "".to_owned(),
    };
    assert(tag@ == message_type(j@));
    let t = tag.as_str();
    if str_eq(t, "init") {
        Some(
            RelayMessage::Snapshot {
                identity: read_text(j, "peer_id"),
                peers: read_peers(j, "peers"),
                posts: read_posts(j, "posts"),
            },
        )
    } else if str_eq(t, "new_post") || str_eq(t, "Post") {
        match decode_post(read_announced(j)) {
            Some(post) => Some(RelayMessage::PostAnnounce { post }),
            None => None,
        }
    } else if str_eq(t, "peer_joined") {
        match j.field("peer") {
            Some(p) => match decode_peer(p) {
                Some(peer) => Some(RelayMessage::PeerUpdate { peer }),
                None => None,
            },
            None => None,
        }
    } else if str_eq(t, "peer_left") {
        match read_text(j, "peer_id") {
            Some(peer_id) => Some(RelayMessage::PeerRemove { peer_id }),
            None => None,
        }
    } else if str_eq(t, "post") {
        let content = match read_text(j, "content") {
            Some(s) => s,
            None => { return None; },
        };
        let author_name = match read_label(j, "author_name") {
            Some(l) => l,
            None => { return None; },
        };
        Some(RelayMessage::PostSubmit { content, author_name })
    } else if str_eq(t, "ping") {
        Some(RelayMessage::Ping)
    } else if str_eq(t, "pong") {
        Some(RelayMessage::Pong)
    } else {
        None
    }
}

/// The relay message that a text stands for, if it is the JSON form of one.
pub open spec fn relay_of_text(text: Seq<char>) -> Option<RelayMessageView> {
    match json_of_text(text) {
        Some(j) => relay_of_json(j),
        None => None,
    }
}

/// Writes a relay message as the text of one frame.
pub fn encode_relay_message(m: &RelayMessage) -> (r: String)
    ensures
        r@ == json_text(relay_json(m@)),
{
    let j = relay_to_json(m);
    render_text(&j)
}

/// Reads a relay message from the text of one frame; `None` where the text
/// is no JSON or no message.
pub fn decode_relay_message(text: &str) -> (r: Option<RelayMessage>)
    ensures
        opt_relay_view(r) == relay_of_text(text@),
{
    match parse_text(text) {
        Some(j) => relay_from_json(&j),
        None => None,
    }
}

// ---------------------------------------------------------------------------
// What is written can be read
// ---------------------------------------------------------------------------

/// The names of the fields are different strings.
proof fn lemma_field_names()
    ensures
        "id"@.len() == 2,
        "author"@.len() == 6,
        "author_name"@.len() == 11,
        "content"@.len() == 7,
        "timestamp"@.len() == 9,
        "peer_id"@.len() == 7,
        "address"@.len() == 7,
        "name"@.len() == 4,
        "is_browser"@.len() == 10,
        "type"@.len() == 4,
        "post"@.len() == 4,
        "Post"@.len() == 4,
        "peer"@.len() == 4,
        "peers"@.len() == 5,
        "posts"@.len() == 5,
        "content"@[0] == 'c',
        "peer_id"@[0] == 'p',
        "address"@[0] == 'a',
        "type"@[0] == 't',
        "post"@[0] == 'p',
        "Post"@[0] == 'P',
        "peer"@[0] == 'p',
        "name"@[0] == 'n',
        "post"@[1] == 'o',
        "peer"@[1] == 'e',
        "peers"@[1] == 'e',
        "posts"@[1] == 'o',
{
    reveal_strlit("id");
    reveal_strlit("author");
    reveal_strlit("author_name");
    reveal_strlit("content");
    reveal_strlit("timestamp");
    reveal_strlit("peer_id");
    reveal_strlit("address");
    reveal_strlit("name");
    reveal_strlit("is_browser");
    reveal_strlit("type");
    reveal_strlit("post");
    reveal_strlit("Post");
    reveal_strlit("peer");
    reveal_strlit("peers");
    reveal_strlit("posts");
}

/// The names of the messages are different strings.
proof fn lemma_tag_names()
    ensures
        "init"@.len() == 4,
        "new_post"@.len() == 8,
        "peer_joined"@.len() == 11,
        "peer_left"@.len() == 9,
        "ping"@.len() == 4,
        "pong"@.len() == 4,
        "init"@[0] == 'i',
        "Post"@[0] == 'P',
        "Post"@.len() == 4,
        "post"@.len() == 4,
        "post"@[0] == 'p',
        "post"@[1] == 'o',
        "ping"@[0] == 'p',
        "ping"@[1] == 'i',
        "pong"@[0] == 'p',
        "pong"@[1] == 'o',
        "pong"@[2] == 'n',
        "post"@[2] == 's',
        "Heartbeat"@.len() == 9,
{
    reveal_strlit("init");
    reveal_strlit("new_post");
    reveal_strlit("peer_joined");
    reveal_strlit("peer_left");
    reveal_strlit("ping");
    reveal_strlit("pong");
    reveal_strlit("post");
    reveal_strlit("Post");
    reveal_strlit("Heartbeat");
}

/// The JSON form of a post reads back as the post.
pub proof fn lemma_post_round_trip(p: PostView)
    ensures
        post_of_json(post_json(p)) == Some(p),
{
    lemma_field_names();
    reveal_with_fuel(lookup, 6);
    let j = post_json(p);
    match p.author_name {
        Some(n) => {
            assert(j->Object_0 =~= seq![
                ("id"@, JsonView::Text(p.id)),
                ("author"@, JsonView::Text(p.author)),
                ("author_name"@, JsonView::Text(n)),
                ("content"@, JsonView::Text(p.content)),
                ("timestamp"@, JsonView::Int(p.timestamp)),
            ]);
        },
        None => {
            assert(j->Object_0 =~= seq![
                ("id"@, JsonView::Text(p.id)),
                ("author"@, JsonView::Text(p.author)),
                ("content"@, JsonView::Text(p.content)),
                ("timestamp"@, JsonView::Int(p.timestamp)),
            ]);
        },
    }
}

/// The JSON form of a peer record reads back as the record.
pub proof fn lemma_peer_round_trip(p: PeerInfoView)
    ensures
        peer_of_json(peer_json(p)) == Some(p),
{
    lemma_field_names();
    reveal_with_fuel(lookup, 5);
    let j = peer_json(p);
    match p.name {
        Some(n) => {
            assert(j->Object_0 =~= seq![
                ("peer_id"@, JsonView::Text(p.peer_id)),
                ("address"@, JsonView::Text(p.address)),
                ("name"@, JsonView::Text(n)),
                ("is_browser"@, JsonView::Bool(p.is_browser)),
            ]);
        },
        None => {
            assert(j->Object_0 =~= seq![
                ("peer_id"@, JsonView::Text(p.peer_id)),
                ("address"@, JsonView::Text(p.address)),
                ("is_browser"@, JsonView::Bool(p.is_browser)),
            ]);
        },
    }
}

/// The JSON forms of a list of posts read back as the list.
pub proof fn lemma_posts_round_trip(posts: Seq<PostView>)
    ensures
        posts_of_items(posts_json(posts)) == posts,
    decreases posts.len(),
{
    if posts.len() > 0 {
        lemma_posts_round_trip(posts.drop_last());
        lemma_post_round_trip(posts.last());
        assert(posts_json(posts).drop_last() =~= posts_json(posts.drop_last()));
        assert(posts_of_items(posts_json(posts)) =~= posts);
    } else {
        assert(posts_of_items(posts_json(posts)) =~= posts);
    }
}

/// The JSON forms of a list of peer records read back as the list.
pub proof fn lemma_peers_round_trip(peers: Seq<PeerInfoView>)
    ensures
        peers_of_items(peers_json(peers)) == peers,
    decreases peers.len(),
{
    if peers.len() > 0 {
        lemma_peers_round_trip(peers.drop_last());
        lemma_peer_round_trip(peers.last());
        assert(peers_json(peers).drop_last() =~= peers_json(peers.drop_last()));
        assert(peers_of_items(peers_json(peers)) =~= peers);
    } else {
        assert(peers_of_items(peers_json(peers)) =~= peers);
    }
}

/// The JSON form of a mesh message reads back as the message.
pub proof fn lemma_network_round_trip(m: NetworkMessageView)
    ensures
        network_of_json(network_json(m)) == Some(m),
{
    match m {
        NetworkMessageView::Post(p) => {
            lemma_post_round_trip(p);
        },
        NetworkMessageView::Heartbeat => {},
    }
}

/// The JSON form of a relay message reads back as the message.
pub proof fn lemma_relay_round_trip(m: RelayMessageView)
    ensures
        relay_of_json(relay_json(m)) == Some(m),
{
    lemma_field_names();
    lemma_tag_names();
    reveal_with_fuel(lookup, 5);
    let j = relay_json(m);
    let fields = j->Object_0;
    match m {
        RelayMessageView::Snapshot { identity, peers, posts } => {
            let a = label_json("peer_id"@, identity);
            let b = list_json("peers"@, opt_peers_json(peers));
            let c = list_json("posts"@, opt_posts_json(posts));
            assert(fields =~= seq![("type"@, JsonView::Text("init"@))] + a + b + c);
            assert(fields[0] == ("type"@, JsonView::Text("init"@)));
            assert(message_type(j) == "init"@);
            if peers is Some {
                lemma_peers_round_trip(peers->0);
            }
            if posts is Some {
                lemma_posts_round_trip(posts->0);
            }
            assert(text_field(j, "peer_id"@) == identity);
            assert(peers_field(j, "peers"@) == peers);
            assert(posts_field(j, "posts"@) == posts);
        },
        RelayMessageView::PostAnnounce { post } => {
            lemma_post_round_trip(post);
            assert(fields =~= seq![
                ("type"@, JsonView::Text("new_post"@)),
                ("post"@, post_json(post)),
            ]);
            assert(message_type(j) == "new_post"@);
            assert(announced(j) == post_json(post));
        },
        RelayMessageView::PeerUpdate { peer } => {
            lemma_peer_round_trip(peer);
            assert(fields =~= seq![
                ("type"@, JsonView::Text("peer_joined"@)),
                ("peer"@, peer_json(peer)),
            ]);
            assert(message_type(j) == "peer_joined"@);
        },
        RelayMessageView::PeerRemove { peer_id } => {
            assert(fields =~= seq![
                ("type"@, JsonView::Text("peer_left"@)),
                ("peer_id"@, JsonView::Text(peer_id)),
            ]);
            assert(message_type(j) == "peer_left"@);
        },
        RelayMessageView::PostSubmit { content, author_name } => {
            assert(fields =~= seq![
                ("type"@, JsonView::Text("post"@)),
                ("content"@, JsonView::Text(content)),
            ] + label_json("author_name"@, author_name));
            assert(message_type(j) == "post"@);
        },
        RelayMessageView::Ping => {
            assert(message_type(j) == "ping"@);
        },
        RelayMessageView::Pong => {
            assert(message_type(j) == "pong"@);
        },
    }
}

} // verus!
