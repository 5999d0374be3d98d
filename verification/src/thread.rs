//! Flattening of a nested discussion thread into an ordered transcript.
//!
//! Every comment gets a small number, its contextual id, when it is first
//! visited: the submission is 0, the comments follow in depth-first pre-order.
//! The numbers are the positions in a registry of native ids, so a reply can
//! name its parent by a short number in place of a long source-assigned id.

use vstd::prelude::*;
use vstd::string::StringExecFns;
use crate::error::{FetchError, FetchErrorModel};
use crate::text::{decimal, decimal_text, opt_text, signed_decimal, signed_decimal_text, texts};

verus! {

/// How deep the comment tree is asked for from the discussion site.
pub const COMMENT_DEPTH: u32 = 3;

/// How many comments are asked for from the discussion site.
pub const COMMENT_LIMIT: u32 = 20;

/// The submission at the root of a thread.
#[derive(Clone, Debug, PartialEq, Eq)]
pub struct Submission {
    /// The id as it stands in the submission's URL.
    pub id: String,
    pub subreddit: String,
    pub title: String,
    pub body: String,
    pub score: i64,
}

pub ghost struct SubmissionModel {
    pub id: Seq<char>,
    pub subreddit: Seq<char>,
    pub title: Seq<char>,
    pub body: Seq<char>,
    pub score: int,
}

impl View for Submission {
    type V = SubmissionModel;

    open spec fn view(&self) -> SubmissionModel {
        SubmissionModel {
            id: self.id@,
            subreddit: self.subreddit@,
            title: self.title@,
            body: self.body@,
            score: self.score as int,
        }
    }
}

/// One comment of a discussion thread, with the replies beneath it. A comment
/// without a body is a placeholder for one that was removed.
#[derive(Debug, PartialEq, Eq)]
pub struct ThreadNode {
    pub native_id: String,
    pub parent_native_id: Option<String>,
    pub author: Option<String>,
    pub permalink: Option<String>,
    pub body: Option<String>,
    pub child_nodes: Vec<ThreadNode>,
}

pub ghost struct NodeModel {
    pub native_id: Seq<char>,
    pub parent_native_id: Option<Seq<char>>,
    pub author: Option<Seq<char>>,
    pub permalink: Option<Seq<char>>,
    pub body: Option<Seq<char>>,
    pub child_nodes: Seq<NodeModel>,
}

/// The model of a comment: its texts, and the models of its replies.
pub open spec fn node_model(node: ThreadNode) -> NodeModel
    decreases node,
{
    NodeModel {
        native_id: node.native_id@,
        parent_native_id: opt_text(node.parent_native_id),
        author: opt_text(node.author),
        permalink: opt_text(node.permalink),
        body: opt_text(node.body),
        child_nodes: Seq::new(
            node.child_nodes@.len(),
            |i: int|
                if 0 <= i < node.child_nodes@.len() {
                    node_model(node.child_nodes@[i])
                } else {
                    arbitrary()
                },
        ),
    }
}

impl View for ThreadNode {
    type V = NodeModel;

    open spec fn view(&self) -> NodeModel {
        node_model(*self)
    }
}

/// The models of a list of comments, in order.
pub open spec fn models(nodes: Seq<ThreadNode>) -> Seq<NodeModel> {
    Seq::new(nodes.len(), |i: int| nodes[i]@)
}

/// The replies in a comment's model are the models of its replies.
pub proof fn lemma_replies_are_models(node: ThreadNode)
    ensures
        node@.child_nodes == models(node.child_nodes@),
{
    assert(node@.child_nodes =~= models(node.child_nodes@));
}

/// The full name under which the discussion site knows a submission.
pub open spec fn full_name(id: Seq<char>) -> Seq<char> {
    "t3_"@ + id
}

/// The contextual id that a native id stands for: the position of its latest
/// registration, and 0, the submission, where it was never registered.
pub open spec fn resolve(registry: Seq<Seq<char>>, key: Seq<char>) -> nat
    decreases registry.len(),
{
    if registry.len() == 0 {
        0
    } else if registry.last() == key {
        (registry.len() - 1) as nat
    } else {
        resolve(registry.drop_last(), key)
    }
}

/// The first block of a transcript: the submission itself.
pub open spec fn submission_block(s: SubmissionModel) -> Seq<char> {
    "<h1>"@ + s.subreddit + ": "@ + s.title + "</h1><p>Score/Likes: "@ + signed_decimal(s.score)
        + "</p><p>"@ + s.body + "</p>"@
}

/// The name a comment is shown under: its author's, and "unknown" where the
/// author is absent, as for a deleted or suspended account.
pub open spec fn shown_author(author: Option<Seq<char>>) -> Seq<char> {
    match author {
        Some(a) => a,
        None => "unknown"@,
    }
}

/// The reference of a comment to its parent, empty where it names none.
pub open spec fn response_note(parent: Option<Seq<char>>, registry: Seq<Seq<char>>) -> Seq<char> {
    match parent {
        Some(p) => " In response to: "@ + decimal(resolve(registry, p)),
        None => Seq::empty(),
    }
}

/// The link to a comment, empty where it has none.
pub open spec fn permalink_note(permalink: Option<Seq<char>>) -> Seq<char> {
    match permalink {
        Some(l) => "<a href='"@ + l + "'>Comment Permalink</a>"@,
        None => Seq::empty(),
    }
}

/// The block of a comment with the given body, shown under contextual id
/// `id`, with its parent looked up in `registry`.
pub open spec fn comment_block(
    id: nat,
    node: NodeModel,
    body: Seq<char>,
    registry: Seq<Seq<char>>,
) -> Seq<char> {
    "<h1>Comment: #"@ + decimal(id) + " from "@ + shown_author(node.author) + response_note(
        node.parent_native_id,
        registry,
    ) + "</h1>"@ + permalink_note(node.permalink) + "<p>"@ + body + "</p>"@
}

/// What a flattening has produced so far: the native ids in the order of their
/// registration, and the blocks of text.
pub ghost struct Transcript {
    pub registry: Seq<Seq<char>>,
    pub blocks: Seq<Seq<char>>,
}

/// The transcript after the visit of one comment, its replies not yet visited:
/// the comment is registered under the next free id, and shown if it has a body.
pub open spec fn enter(node: NodeModel, t: Transcript) -> Transcript {
    let registry = t.registry.push(node.native_id);
    Transcript {
        registry,
        blocks: match node.body {
            Some(body) => t.blocks.push(comment_block(t.registry.len(), node, body, registry)),
            None => t.blocks,
        },
    }
}

/// The transcript after the visit of the comments `nodes`, each followed at
/// once by the comments beneath it.
pub open spec fn visit_all(nodes: Seq<NodeModel>, t: Transcript) -> Transcript
    decreases nodes,
{
    if nodes.len() == 0 {
        t
    } else {
        visit_all(nodes.drop_first(), visit_all(nodes[0].child_nodes, enter(nodes[0], t)))
    }
}

/// The transcript that a flattening starts from: the submission holds id 0
/// under its full name and gives the first block.
pub open spec fn opening(s: SubmissionModel) -> Transcript {
    Transcript { registry: seq![full_name(s.id)], blocks: seq![submission_block(s)] }
}

/// The blocks of a flattened thread.
pub open spec fn flattened(s: SubmissionModel, comments: Seq<NodeModel>) -> Seq<Seq<char>> {
    visit_all(comments, opening(s)).blocks
}

/// The comments in the order in which a flattening visits them: each one
/// before its replies, and its replies before the comment that follows it.
pub open spec fn preorder(nodes: Seq<NodeModel>) -> Seq<NodeModel>
    decreases nodes,
{
    if nodes.len() == 0 {
        Seq::empty()
    } else {
        seq![nodes[0]] + preorder(nodes[0].child_nodes) + preorder(nodes.drop_first())
    }
}

/// The native ids of a list of comments, in order.
pub open spec fn native_ids(order: Seq<NodeModel>) -> Seq<Seq<char>> {
    Seq::new(order.len(), |i: int| order[i].native_id)
}

/// The transcript after the comments of `order` were entered one after
/// another, with no regard to which is a reply to which.
pub open spec fn entered(order: Seq<NodeModel>, t: Transcript) -> Transcript
    decreases order.len(),
{
    if order.len() == 0 {
        t
    } else {
        enter(order.last(), entered(order.drop_last(), t))
    }
}

/// Entering one list of comments and then another is entering both in a row.
pub proof fn lemma_entered_in_a_row(a: Seq<NodeModel>, b: Seq<NodeModel>, t: Transcript)
    ensures
        entered(a + b, t) == entered(b, entered(a, t)),
    decreases b.len(),
{
    if b.len() == 0 {
        assert(a + b =~= a);
    } else {
        lemma_entered_in_a_row(a, b.drop_last(), t);
        assert((a + b).drop_last() =~= a + b.drop_last());
        assert((a + b).last() == b.last());
    }
}

/// Entering comments registers their native ids in order, after those that
/// were registered before, whether a comment has a body or not.
pub proof fn lemma_entered_registry(order: Seq<NodeModel>, t: Transcript)
    ensures
        entered(order, t).registry == t.registry + native_ids(order),
    decreases order.len(),
{
    if order.len() == 0 {
        assert(t.registry + native_ids(order) =~= t.registry);
    } else {
        lemma_entered_registry(order.drop_last(), t);
        assert(t.registry + native_ids(order) =~= (t.registry + native_ids(
            order.drop_last(),
        )).push(order.last().native_id));
    }
}

/// A flattening enters the comments in pre-order: nothing else decides what
/// is registered and shown.
pub proof fn lemma_visit_is_preorder(nodes: Seq<NodeModel>, t: Transcript)
    ensures
        visit_all(nodes, t) == entered(preorder(nodes), t),
    decreases nodes,
{
    if nodes.len() > 0 {
        let first = seq![nodes[0]];
        let below = preorder(nodes[0].child_nodes);
        let after = preorder(nodes.drop_first());
        assert(entered(first, t) == enter(nodes[0], t)) by {
            assert(first.drop_last() =~= Seq::<NodeModel>::empty());
            assert(first.last() == nodes[0]);
            assert(entered(first.drop_last(), t) == t);
        }
        lemma_visit_is_preorder(nodes[0].child_nodes, enter(nodes[0], t));
        lemma_visit_is_preorder(
            nodes.drop_first(),
            visit_all(nodes[0].child_nodes, enter(nodes[0], t)),
        );
        lemma_entered_in_a_row(first, below, t);
        lemma_entered_in_a_row(first + below, after, t);
    }
}

/// Contextual ids follow the order of the visit. The submission holds id 0.
/// The comment visited as number `k` (counted from 0) of a thread is entered
/// when `k + 1` ids are taken, so it receives `k + 1`, and in the end the
/// registry holds the submission's full name and then the native ids of all
/// comments in pre-order, with or without a body.
pub proof fn lemma_ids_follow_visit_order(s: SubmissionModel, comments: Seq<NodeModel>, k: int)
    requires
        0 <= k < preorder(comments).len(),
    ensures
        visit_all(comments, opening(s)) == entered(preorder(comments), opening(s)),
        entered(preorder(comments).take(k), opening(s)).registry.len() == k + 1,
        visit_all(comments, opening(s)).registry == seq![full_name(s.id)] + native_ids(
            preorder(comments),
        ),
        visit_all(comments, opening(s)).registry[k + 1] == preorder(comments)[k].native_id,
{
    lemma_visit_is_preorder(comments, opening(s));
    lemma_entered_registry(preorder(comments), opening(s));
    lemma_entered_registry(preorder(comments).take(k), opening(s));
}

/// A native id that was never registered resolves to 0, the submission.
pub proof fn lemma_dangling_resolves_to_root(registry: Seq<Seq<char>>, key: Seq<char>)
    requires
        !registry.contains(key),
    ensures
        resolve(registry, key) == 0,
    decreases registry.len(),
{
    if registry.len() > 0 {
        assert(registry.last() == registry[registry.len() - 1]);
        assert forall|i: int| 0 <= i < registry.drop_last().len() implies registry.drop_last()[i]
            != key by {
            assert(registry.drop_last()[i] == registry[i]);
        }
        lemma_dangling_resolves_to_root(registry.drop_last(), key);
    }
}

/// A registered native id resolves to the place of its latest registration.
pub proof fn lemma_registered_resolves_to_latest(registry: Seq<Seq<char>>, key: Seq<char>)
    requires
        registry.contains(key),
    ensures
        0 <= resolve(registry, key) < registry.len(),
        registry[resolve(registry, key) as int] == key,
        forall|i: int| resolve(registry, key) < i < registry.len() ==> registry[i] != key,
    decreases registry.len(),
{
    if registry.last() != key {
        let i = choose|i: int| 0 <= i < registry.len() && registry[i] == key;
        assert(registry.drop_last()[i] == key);
        lemma_registered_resolves_to_latest(registry.drop_last(), key);
        assert forall|j: int| resolve(registry, key) < j < registry.len() implies registry[j]
            != key by {
            if j < registry.len() - 1 {
                assert(registry.drop_last()[j] == registry[j]);
            }
        }
    }
}

/// Looks a native id up among the registered ones: the contextual id of its
/// latest registration, and 0 where there is none.
pub fn resolve_id(registry: &Vec<String>, key: &String) -> (r: usize)
    ensures
        r as nat == resolve(texts(registry@), key@),
        !texts(registry@).contains(key@) ==> r == 0,
{
    proof {
        if !texts(registry@).contains(key@) {
            lemma_dangling_resolves_to_root(texts(registry@), key@);
        }
    }
    let mut i: usize = registry.len();
    assert(texts(registry@).take(i as int) =~= texts(registry@));
    while i > 0
        invariant
            i <= registry.len(),
            resolve(texts(registry@), key@) == resolve(texts(registry@).take(i as int), key@),
        decreases i,
    {
        proof {
            let head = texts(registry@).take(i as int);
            assert(head.last() == registry@[i - 1]@);
            assert(head.drop_last() =~= texts(registry@).take(i - 1));
        }
        if registry[i - 1] == *key {
            return i - 1;
        }
        i = i - 1;
    }
    assert(texts(registry@).take(0).len() == 0);
    0
}

/// Picks the submission out of what the discussion site returned for its
/// id: the first. Where the site returned none, it knows no submission of
/// this id, and its comments are not asked for.
pub fn found_submission<'a>(submission_id: &str, found: &'a Vec<Submission>) -> (r: Result<
    &'a Submission,
    FetchError,
>)
    ensures
        match r {
            Ok(s) => found@.len() > 0 && *s == found@[0],
            Err(e) => found@.len() == 0 && e@ == FetchErrorModel::UpstreamEmpty(submission_id@),
        },
{
    if found.len() == 0 {
        Err(FetchError::UpstreamEmpty(submission_id.to_owned()))
    } else {
        Ok(&found[0])
    }
}

/// The full name of the submission with the given id.
pub fn full_name_of(id: &str) -> (r: String)
    ensures
        r@ == full_name(id@),
{
    let mut name = "t3_".to_owned();
    name.append(id);
    name
}

/// Renders the submission.
pub fn render_submission(s: &Submission) -> (r: String)
    ensures
        r@ == submission_block(s@),
{
    let mut r = "<h1>".to_owned();
    r.append(s.subreddit.as_str());
    r.append(": ");
    r.append(s.title.as_str());
    r.append("</h1><p>Score/Likes: ");
    r.append(signed_decimal_text(s.score).as_str());
    r.append("</p><p>");
    r.append(s.body.as_str());
    r.append("</p>");
    r
}

/// Renders one comment with the given body under the contextual id `id`.
pub fn render_comment(id: usize, node: &ThreadNode, body: &String, registry: &Vec<String>) -> (r:
    String)
    ensures
        r@ == comment_block(id as nat, node@, body@, texts(registry@)),
{
    let mut r = "<h1>Comment: #".to_owned();
    r.append(decimal_text(id as u64).as_str());
    r.append(" from ");
    match &node.author {
        Some(a) => r.append(a.as_str()),
        None => r.append("unknown"),
    }
    match &node.parent_native_id {
        Some(p) => {
            let parent = resolve_id(registry, p);
            let mut note = " In response to: ".to_owned();
            note.append(decimal_text(parent as u64).as_str());
            r.append(note.as_str());
        },
        None => {
            assert(r@ + Seq::<char>::empty() =~= r@);
        },
    }
    r.append("</h1>");
    match &node.permalink {
        Some(l) => {
            let mut note = "<a href='".to_owned();
            note.append(l.as_str());
            note.append("'>Comment Permalink</a>");
            r.append(note.as_str());
        },
        None => {
            assert(r@ + Seq::<char>::empty() =~= r@);
        },
    }
    r.append("<p>");
    r.append(body.as_str());
    r.append("</p>");
    r
}

/// Visits the comments in order, each followed at once by its replies, and
/// appends what the visit registers and shows.
pub fn visit_comments(nodes: &Vec<ThreadNode>, registry: &mut Vec<String>, blocks: &mut Vec<String>)
    ensures
        (Transcript { registry: texts(final(registry)@), blocks: texts(final(blocks)@) })
            == visit_all(
            models(nodes@),
            (Transcript { registry: texts(old(registry)@), blocks: texts(old(blocks)@) }),
        ),
    decreases nodes,
{
    let ghost start = Transcript { registry: texts(registry@), blocks: texts(blocks@) };
    let mut i: usize = 0;
    assert(models(nodes@).skip(0) =~= models(nodes@));
    while i < nodes.len()
        invariant
            i <= nodes.len(),
            visit_all(
                models(nodes@).skip(i as int),
                (Transcript { registry: texts(registry@), blocks: texts(blocks@) }),
            ) == visit_all(models(nodes@), start),
        decreases nodes.len() - i,
    {
        let node = &nodes[i];
        let ghost before = Transcript { registry: texts(registry@), blocks: texts(blocks@) };
        let ghost rest = models(nodes@).skip(i as int);
        let id = registry.len();
        registry.push(node.native_id.clone());
        assert(texts(registry@) =~= before.registry.push(node@.native_id));
        match &node.body {
            Some(body) => {
                let block = render_comment(id, node, body, registry);
                blocks.push(block);
                assert(texts(blocks@) =~= before.blocks.push(block@));
            },
            None => {},
        }
        assert((Transcript { registry: texts(registry@), blocks: texts(blocks@) }) == enter(
            node@,
            before,
        ));
        visit_comments(&node.child_nodes, registry, blocks);
        proof {
            assert(rest[0] == node@);
            lemma_replies_are_models(*node);
            assert(rest.drop_first() =~= models(nodes@).skip(i as int + 1));
        }
        i = i + 1;
    }
}

/// Flattens a thread: the submission first, then every comment that has a
/// body, in depth-first pre-order, each under its contextual id.
pub fn flatten_thread(submission: &Submission, comments: &Vec<ThreadNode>) -> (r: Vec<String>)
    ensures
        texts(r@) == flattened(submission@, models(comments@)),
{
    let mut registry: Vec<String> = Vec::new();
    registry.push(full_name_of(submission.id.as_str()));
    let mut blocks: Vec<String> = Vec::new();
    blocks.push(render_submission(submission));
    assert(texts(registry@) =~= seq![full_name(submission@.id)]);
    assert(texts(blocks@) =~= seq![submission_block(submission@)]);
    visit_comments(comments, &mut registry, &mut blocks);
    blocks
}

} // verus!
