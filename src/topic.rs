//! Broker topic names: the ones the bridge subscribes and publishes to, and
//! the local store key that a shadow topic is flattened into.
use vstd::prelude::*;
use crate::text::{concat2, copy_str};

verus! {

/// `$aws/{topic}`.
pub open spec fn raw_topic(topic: Seq<char>) -> Seq<char> {
    "$aws/"@ + topic
}

/// `$aws/things/{thing}/shadow/{topic}/update`.
pub open spec fn shadow_update_topic(thing: Seq<char>, topic: Seq<char>) -> Seq<char> {
    "$aws/things/"@ + thing + "/shadow/"@ + topic + "/update"@
}

/// `$aws/things/{thing}/shadow/#`.
pub open spec fn shadow_all_topic(thing: Seq<char>) -> Seq<char> {
    "$aws/things/"@ + thing + "/shadow/#"@
}

/// `$aws/things/{thing}/jobs/#`.
pub open spec fn jobs_all_topic(thing: Seq<char>) -> Seq<char> {
    "$aws/things/"@ + thing + "/jobs/#"@
}

/// `$aws/things/{thing}/shadow/{name}/get`.
pub open spec fn shadow_get_topic(thing: Seq<char>, name: Seq<char>) -> Seq<char> {
    "$aws/things/"@ + thing + "/shadow/"@ + name + "/get"@
}

/// `$aws/provisioning-templates/{template}/provision/json`.
pub open spec fn provision_topic(template: Seq<char>) -> Seq<char> {
    "$aws/provisioning-templates/"@ + template + "/provision/json"@
}

/// `$aws/provisioning-templates/{template}/provision/json/accepted`.
pub open spec fn provision_accepted_topic(template: Seq<char>) -> Seq<char> {
    "$aws/provisioning-templates/"@ + template + "/provision/json/accepted"@
}

/// `$aws/provisioning-templates/{template}/provision/json/rejected`.
pub open spec fn provision_rejected_topic(template: Seq<char>) -> Seq<char> {
    "$aws/provisioning-templates/"@ + template + "/provision/json/rejected"@
}

/// The topics that name the broker's certificate-create service.
pub open spec fn cert_create_topic() -> Seq<char> {
    "$aws/certificates/create/json"@
}

pub open spec fn cert_create_accepted_topic() -> Seq<char> {
    "$aws/certificates/create/json/accepted"@
}

pub open spec fn cert_create_rejected_topic() -> Seq<char> {
    "$aws/certificates/create/json/rejected"@
}

/// The `/`-separated segments of `s`; a string without `/` is one segment.
pub open spec fn segments(s: Seq<char>) -> Seq<Seq<char>>
    decreases s.len(),
{
    if s.len() == 0 {
        seq![Seq::<char>::empty()]
    } else {
        let init = segments(s.drop_last());
        if s.last() == '/' {
            init.push(Seq::<char>::empty())
        } else {
            init.update(init.len() - 1, init.last().push(s.last()))
        }
    }
}

/// Segments three to five (counting from zero), as many of them as exist.
pub open spec fn key_window(segs: Seq<Seq<char>>) -> Seq<Seq<char>> {
    if segs.len() <= 3 {
        Seq::<Seq<char>>::empty()
    } else if segs.len() <= 6 {
        segs.subrange(3, segs.len() as int)
    } else {
        segs.subrange(3, 6)
    }
}

/// `root` followed by `/` and a segment, for each segment in order.
pub open spec fn join_under(root: Seq<char>, segs: Seq<Seq<char>>) -> Seq<char>
    decreases segs.len(),
{
    if segs.len() == 0 {
        root
    } else {
        join_under(root, segs.drop_last()) + "/"@ + segs.last()
    }
}

/// The store key of a shadow topic: the first three segments
/// (`$aws/things/{thing}`) are dropped and the next three are joined under
/// `aws/kap`.
pub open spec fn local_key(topic: Seq<char>) -> Seq<char> {
    join_under("aws/kap"@, key_window(segments(topic)))
}

/// The two topic shapes that local commands are published to.
pub enum TopicType {
    Raw { topic: String },
    ShadowUpdate { topic: String, thing: String },
}

impl TopicType {
    pub open spec fn spec_topic(&self) -> Seq<char> {
        match self {
            TopicType::Raw { topic } => raw_topic(topic@),
            TopicType::ShadowUpdate { topic, thing } => shadow_update_topic(thing@, topic@),
        }
    }

    /// The broker topic.
    pub fn to_string(self) -> (r: String)
        ensures
            r@ == self.spec_topic(),
    {
        match self {
            TopicType::Raw { topic } => concat2("$aws/", topic.as_str()),
            TopicType::ShadowUpdate { topic, thing } => {
                let mut r = copy_str("$aws/things/");
                r.append(thing.as_str());
                r.append("/shadow/");
                r.append(topic.as_str());
                r.append("/update");
                r
            },
        }
    }
}

/// Subscription that covers every shadow topic of `thing`.
pub fn shadow_subscribe_topic(thing: &str) -> (r: String)
    ensures
        r@ == shadow_all_topic(thing@),
{
    let mut r = copy_str("$aws/things/");
    r.append(thing);
    r.append("/shadow/#");
    r
}

/// Subscription that covers every job topic of `thing`.
pub fn jobs_subscribe_topic(thing: &str) -> (r: String)
    ensures
        r@ == jobs_all_topic(thing@),
{
    let mut r = copy_str("$aws/things/");
    r.append(thing);
    r.append("/jobs/#");
    r
}

/// The topic that asks the broker for the current state of shadow `name`.
pub fn shadow_pull_topic(thing: &str, name: &str) -> (r: String)
    ensures
        r@ == shadow_get_topic(thing@, name@),
{
    let mut r = copy_str("$aws/things/");
    r.append(thing);
    r.append("/shadow/");
    r.append(name);
    r.append("/get");
    r
}

/// The pull topics for each configured shadow name, in order.
pub fn shadow_pull_topics(thing: &str, names: &Vec<String>) -> (r: Vec<String>)
    ensures
        r@.len() == names@.len(),
        forall|i: int| 0 <= i < names@.len() ==> #[trigger] r@[i]@ == shadow_get_topic(thing@, names@[i]@),
{
    let mut r: Vec<String> = Vec::new();
    let mut i: usize = 0;
    while i < names.len()
        invariant
            i <= names@.len(),
            r@.len() == i,
            forall|k: int| 0 <= k < i ==> #[trigger] r@[k]@ == shadow_get_topic(thing@, names@[k]@),
        decreases names@.len() - i,
    {
        r.push(shadow_pull_topic(thing, names[i].as_str()));
        i = i + 1;
    }
    r
}

pub fn provision_request_topic(template: &str) -> (r: String)
    ensures
        r@ == provision_topic(template@),
{
    let mut r = copy_str("$aws/provisioning-templates/");
    r.append(template);
    r.append("/provision/json");
    r
}

pub fn provision_accept_topic(template: &str) -> (r: String)
    ensures
        r@ == provision_accepted_topic(template@),
{
    let mut r = copy_str("$aws/provisioning-templates/");
    r.append(template);
    r.append("/provision/json/accepted");
    r
}

pub fn provision_reject_topic(template: &str) -> (r: String)
    ensures
        r@ == provision_rejected_topic(template@),
{
    let mut r = copy_str("$aws/provisioning-templates/");
    r.append(template);
    r.append("/provision/json/rejected");
    r
}

pub fn cert_create_request() -> (r: String)
    ensures
        r@ == cert_create_topic(),
{
    copy_str("$aws/certificates/create/json")
}

pub fn cert_create_accepted() -> (r: String)
    ensures
        r@ == cert_create_accepted_topic(),
{
    copy_str("$aws/certificates/create/json/accepted")
}

pub fn cert_create_rejected() -> (r: String)
    ensures
        r@ == cert_create_rejected_topic(),
{
    copy_str("$aws/certificates/create/json/rejected")
}

proof fn lemma_join_update_last(root: Seq<char>, w: Seq<Seq<char>>, c: char)
    requires
        w.len() > 0,
    ensures
        join_under(root, w.update(w.len() - 1, w.last().push(c))) == join_under(root, w).push(c),
{
    let w2 = w.update(w.len() - 1, w.last().push(c));
    reveal_strlit("/");
    assert(w2.drop_last() =~= w.drop_last());
    assert(join_under(root, w2) =~= join_under(root, w).push(c));
}

proof fn lemma_join_push_empty(root: Seq<char>, w: Seq<Seq<char>>)
    ensures
        join_under(root, w.push(Seq::<char>::empty())) == join_under(root, w).push('/'),
{
    let w2 = w.push(Seq::<char>::empty());
    reveal_strlit("/");
    assert(w2.drop_last() =~= w);
    assert(join_under(root, w2) =~= join_under(root, w).push('/'));
}

proof fn lemma_segments_nonempty(s: Seq<char>)
    ensures
        segments(s).len() >= 1,
    decreases s.len(),
{
    if s.len() > 0 {
        lemma_segments_nonempty(s.drop_last());
    }
}

/// One more character of the topic: how the key of the prefix grows.
proof fn lemma_local_key_step(s: Seq<char>, c: char)
    ensures
        local_key(s.push(c)) == if c == '/' {
            if 3 <= segments(s).len() && segments(s).len() < 6 {
                local_key(s).push('/')
            } else {
                local_key(s)
            }
        } else {
            if 4 <= segments(s).len() && segments(s).len() <= 6 {
                local_key(s).push(c)
            } else {
                local_key(s)
            }
        },
        segments(s.push(c)).len() == segments(s).len() + if c == '/' { 1int } else { 0int },
        segments(s).len() >= 1,
{
    let t = s.push(c);
    assert(t.drop_last() =~= s);
    let segs = segments(s);
    lemma_segments_nonempty(s);
    let n = segs.len();
    let root = "aws/kap"@;
    if c == '/' {
        let segs2 = segs.push(Seq::<char>::empty());
        assert(segments(t) == segs2);
        if 3 <= n && n < 6 {
            assert(key_window(segs2) =~= key_window(segs).push(Seq::<char>::empty()));
            lemma_join_push_empty(root, key_window(segs));
        } else {
            assert(key_window(segs2) =~= key_window(segs));
        }
    } else {
        let segs2 = segs.update(n - 1, segs.last().push(c));
        assert(segments(t) == segs2);
        if 4 <= n && n <= 6 {
            let w = key_window(segs);
            assert(key_window(segs2) =~= w.update(w.len() - 1, w.last().push(c)));
            lemma_join_update_last(root, w, c);
        } else {
            assert(key_window(segs2) =~= key_window(segs));
        }
    }
}

/// The local store key of a broker topic (see `local_key`).
pub fn shadow_local_key(topic: &str) -> (r: String)
    ensures
        r@ == local_key(topic@),
{
    let n = topic.unicode_len();
    let mut r = copy_str("aws/kap");
    let mut nsegs: usize = 1;
    let mut i: usize = 0;
    proof {
        assert(topic@.subrange(0, 0) =~= Seq::<char>::empty());
        assert(key_window(segments(Seq::<char>::empty())) =~= Seq::<Seq<char>>::empty());
    }
    while i < n
        invariant
            n == topic@.len(),
            i <= n,
            nsegs as int == if segments(topic@.subrange(0, i as int)).len() < 7 {
                segments(topic@.subrange(0, i as int)).len()
            } else {
                7
            },
            r@ == local_key(topic@.subrange(0, i as int)),
        decreases n - i,
    {
        let c = topic.get_char(i);
        proof {
            let pre = topic@.subrange(0, i as int);
            assert(topic@.subrange(0, i + 1) =~= pre.push(c));
            lemma_local_key_step(pre, c);
            assert(pre.push(c).drop_last() =~= pre);
        }
        if c == '/' {
            if 3 <= nsegs && nsegs < 6 {
                r.push('/');
            }
            if nsegs < 7 {
                nsegs = nsegs + 1;
            }
        } else {
            if 4 <= nsegs && nsegs <= 6 {
                r.push(c);
            }
        }
        i = i + 1;
    }
    assert(topic@.subrange(0, n as int) =~= topic@);
    r
}

} // verus!
