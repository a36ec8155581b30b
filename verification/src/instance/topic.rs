//! Topics of the platform: the root topic of an engine, the topics of the
//! instances, classes and attributes below it.
use crate::text::opt_text;
use vstd::prelude::*;
use vstd::string::*;

verus! {

/// Index of the last '/' of `s`, -1 when there is none.
pub open spec fn last_slash(s: Seq<char>) -> int
    decreases s.len(),
{
    if s.len() == 0 {
        -1
    } else if s.last() == '/' {
        s.len() - 1
    } else {
        last_slash(s.drop_last())
    }
}

/// The part of `s` after its last '/' (the whole of `s` when there is none).
pub open spec fn last_segment(s: Seq<char>) -> Seq<char> {
    s.skip(last_slash(s) + 1)
}

/// `last_slash` is the position of the last '/' of `s`, -1 when it has none.
proof fn lemma_last_slash_position(s: Seq<char>)
    ensures
        -1 <= last_slash(s) < s.len(),
        last_slash(s) >= 0 ==> s[last_slash(s)] == '/',
        forall|j: int| last_slash(s) < j < s.len() ==> s[j] != '/',
    decreases s.len(),
{
    if s.len() > 0 && s.last() != '/' {
        lemma_last_slash_position(s.drop_last());
        assert forall|j: int| last_slash(s) < j < s.len() implies s[j] != '/' by {
            if j < s.len() - 1 {
                assert(s.drop_last()[j] == s[j]);
            }
        }
    }
}

/// The name of an instance is the end of its topic that holds no '/' and
/// follows the last '/' of the topic, or the whole topic when it has none.
pub proof fn lemma_name_is_last_segment(topic: Seq<char>)
    ensures
        ({
            let seg = last_segment(topic);
            &&& seg.len() <= topic.len()
            &&& topic.skip(topic.len() - seg.len()) == seg
            &&& forall|i: int| 0 <= i < seg.len() ==> seg[i] != '/'
            &&& seg.len() < topic.len() ==> topic[topic.len() - seg.len() - 1] == '/'
        }),
{
    lemma_last_slash_position(topic);
    let seg = last_segment(topic);
    assert forall|i: int| 0 <= i < seg.len() implies seg[i] != '/' by {
        assert(seg[i] == topic[last_slash(topic) + 1 + i]);
    }
    assert(topic.skip(topic.len() - seg.len()) =~= seg);
}

/// Without a namespace, or with an empty one, the topic is kept; with a
/// namespace `ns`, the result is "*" followed by the topic with `ns` taken
/// off its start when it starts with `ns`, by the whole topic otherwise.
pub proof fn lemma_topic_prefixless_namespace(topic: Seq<char>, namespace: Option<Seq<char>>)
    ensures
        match namespace {
            Some(ns) => if ns.len() > 0 {
                let r = spec_topic_prefixless(topic, namespace);
                &&& r.len() >= 1 && r[0] == '*'
                &&& ns.is_prefix_of(topic) ==> ns + r.skip(1) == topic
                &&& !ns.is_prefix_of(topic) ==> r.skip(1) == topic
            } else {
                spec_topic_prefixless(topic, namespace) == topic
            },
            None => spec_topic_prefixless(topic, namespace) == topic,
        },
{
    reveal_strlit("*");
    if let Some(ns) = namespace {
        if ns.len() > 0 {
            let r = spec_topic_prefixless(topic, namespace);
            let rest = strip_prefix_or_keep(topic, ns);
            assert(r.skip(1) =~= rest);
            if ns.is_prefix_of(topic) {
                assert(ns + rest =~= topic);
            }
        }
    }
}

/// Characterises `last_slash` by the positions of the slashes.
proof fn lemma_last_slash_is(s: Seq<char>, k: int)
    requires
        -1 <= k < s.len(),
        k >= 0 ==> s[k] == '/',
        forall|j: int| k < j < s.len() ==> s[j] != '/',
    ensures
        last_slash(s) == k,
    decreases s.len(),
{
    if s.len() > 0 && k != s.len() - 1 {
        lemma_last_slash_is(s.drop_last(), k);
    }
}

/// The root topic: "<namespace>/pza", or "pza" without a namespace.
/// The given namespace takes precedence over the engine's one; an empty
/// namespace counts as none.
pub open spec fn spec_root_topic(namespace: Option<Seq<char>>, engine_namespace: Option<
    Seq<char>,
>) -> Seq<char> {
    let ns = if namespace is Some {
        namespace
    } else {
        engine_namespace
    };
    match ns {
        Some(n) => if n.len() > 0 {
            n + "/pza"@
        } else {
            "pza"@
        },
        None => "pza"@,
    }
}

/// The root topic uses the given namespace, else the engine's; a non-empty
/// namespace `n` gives "n/pza", and no namespace or an empty one, whichever
/// was chosen, gives "pza". It is never "/pza".
pub proof fn lemma_root_topic_namespaces(namespace: Option<Seq<char>>, engine_namespace: Option<Seq<char>>)
    ensures
        spec_root_topic(namespace, engine_namespace) != "/pza"@,
        namespace matches Some(n) ==> spec_root_topic(namespace, engine_namespace) == if n.len() > 0 {
            n + "/pza"@
        } else {
            "pza"@
        },
        namespace is None ==> spec_root_topic(namespace, engine_namespace) == match engine_namespace {
            Some(n) => if n.len() > 0 {
                n + "/pza"@
            } else {
                "pza"@
            },
            None => "pza"@,
        },
{
    reveal_strlit("/pza");
    reveal_strlit("pza");
    let r = spec_root_topic(namespace, engine_namespace);
    if r == "/pza"@ {
        let ns = if namespace is Some { namespace } else { engine_namespace };
        match ns {
            Some(n) => {
                if n.len() > 0 {
                    assert((n + "/pza"@).len() > 4);
                } else {
                    assert("pza"@.len() == 3);
                }
            },
            None => {
                assert("pza"@.len() == 3);
            },
        }
        assert(false);
    }
}

/// Generates the root topic of an engine whose namespace is `engine_namespace`.
pub fn root_topic(namespace: Option<String>, engine_namespace: &Option<String>) -> (r: String)
    ensures
        r@ == spec_root_topic(opt_text(namespace), opt_text(*engine_namespace)),
        r@ != "/pza"@,
        namespace matches Some(n) ==> (if n@.len() > 0 {
            r@ == n@ + "/pza"@
        } else {
            r@ == "pza"@
        }),
        namespace is None ==> match *engine_namespace {
            Some(n) => if n@.len() > 0 {
                r@ == n@ + "/pza"@
            } else {
                r@ == "pza"@
            },
            None => r@ == "pza"@,
        },
{
    proof {
        lemma_root_topic_namespaces(opt_text(namespace), opt_text(*engine_namespace));
    }
    let ns: Option<String> = match namespace {
        Some(n) => Some(n),
        None => match engine_namespace {
            Some(n) => Some(n.clone()),
            None => None,
        },
    };
    match ns {
        Some(n) => {
            if !n.as_str().is_empty() {
                n.concat("/pza")
            } else {
                "pza".to_owned()
            }
        },
        None => "pza".to_owned(),
    }
}

/// Name of an instance: the last segment of its topic.
pub fn name(topic: &String) -> (r: String)
    ensures
        r@ == last_segment(topic@),
        forall|i: int| 0 <= i < r@.len() ==> r@[i] != '/',
        r@.len() <= topic@.len() && topic@.skip(topic@.len() - r@.len()) == r@,
        r@.len() < topic@.len() ==> topic@[topic@.len() - r@.len() - 1] == '/',
{
    proof {
        lemma_name_is_last_segment(topic@);
    }
    let s = topic.as_str();
    let len = s.unicode_len();
    let mut found = false;
    let mut last: usize = 0;
    let mut i: usize = 0;
    while i < len
        invariant
            len == s@.len(),
            s@ == topic@,
            i <= len,
            found ==> last < i && s@[last as int] == '/',
            forall|j: int| (if found { last as int } else { -1 }) < j < i ==> s@[j] != '/',
        decreases len - i,
    {
        if s.get_char(i) == '/' {
            found = true;
            last = i;
        }
        i = i + 1;
    }
    proof {
        lemma_last_slash_is(topic@, if found { last as int } else { -1 });
    }
    let from = if found { last + 1 } else { 0 };
    s.substring_char(from, len).to_owned()
}

/// Whether `prefix` is a prefix of `s`, character by character.
fn starts_with(s: &str, prefix: &str) -> (r: bool)
    ensures
        r == prefix@.is_prefix_of(s@),
{
    let n = prefix.unicode_len();
    let m = s.unicode_len();
    if n > m {
        return false;
    }
    let mut i: usize = 0;
    while i < n
        invariant
            n == prefix@.len(),
            m == s@.len(),
            n <= m,
            i <= n,
            forall|j: int| 0 <= j < i ==> prefix@[j] == s@[j],
        decreases n - i,
    {
        if prefix.get_char(i) != s.get_char(i) {
            return false;
        }
        i = i + 1;
    }
    true
}

/// `topic` without `prefix` when it starts with it, `topic` otherwise.
pub open spec fn strip_prefix_or_keep(topic: Seq<char>, prefix: Seq<char>) -> Seq<char> {
    if prefix.is_prefix_of(topic) {
        topic.skip(prefix.len() as int)
    } else {
        topic
    }
}

/// The topic to listen to for the commands of an attribute: with a non-empty
/// namespace, the namespace is replaced by a wildcard.
pub open spec fn spec_topic_prefixless(topic: Seq<char>, namespace: Option<Seq<char>>) -> Seq<
    char,
> {
    match namespace {
        Some(ns) => if ns.len() == 0 {
            topic
        } else {
            "*"@ + strip_prefix_or_keep(topic, ns)
        },
        None => topic,
    }
}

/// Computes the namespace-less form of an attribute topic.
pub fn topic_prefixless(topic: &String, namespace: &Option<String>) -> (r: String)
    ensures
        r@ == spec_topic_prefixless(topic@, opt_text(*namespace)),
{
    match namespace {
        Some(ns) => {
            if ns.as_str().is_empty() {
                topic.clone()
            } else {
                let t = topic.as_str();
                let n = ns.as_str();
                let rest: &str = if starts_with(t, n) {
                    t.substring_char(n.unicode_len(), t.unicode_len())
                } else {
                    t
                };
                "*".to_owned().concat(rest)
            }
        },
        None => topic.clone(),
    }
}

/// Topic of a child element: "<parent>/<name>".
pub fn join_topic(parent: &str, child: &str) -> (r: String)
    ensures
        r@ == parent@ + "/"@ + child@,
{
    parent.to_owned().concat("/").concat(child)
}

/// Topic on which an attribute receives its commands: "<topic>/cmd".
pub fn cmd_topic(topic: &str) -> (r: String)
    ensures
        r@ == topic@ + "/cmd"@,
{
    topic.to_owned().concat("/cmd")
}

/// Topic on which an attribute publishes its value: "<topic>/att".
pub fn att_topic(topic: &str) -> (r: String)
    ensures
        r@ == topic@ + "/att"@,
{
    topic.to_owned().concat("/att")
}

/// The name of an instance whose topic is `root`/`name` is `name`, when the
/// name holds no '/'.
pub proof fn lemma_instance_name_of_topic(root: Seq<char>, name: Seq<char>)
    requires
        forall|i: int| 0 <= i < name.len() ==> name[i] != '/',
    ensures
        last_segment(root + "/"@ + name) == name,
{
    reveal_strlit("/");
    let t = root + "/"@ + name;
    assert(t[root.len() as int] == '/');
    assert forall|j: int| root.len() < j < t.len() implies t[j] != '/' by {
        assert(t[j] == name[j - root.len() - 1]);
    }
    lemma_last_slash_is(t, root.len() as int);
    assert(t.skip(root.len() + 1int) =~= name);
}

} // verus!
