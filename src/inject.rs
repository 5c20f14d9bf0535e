use vstd::prelude::*;
use crate::text::{
    chars_of, find_first, contains, first_occurrence, occurs_at, no_straddle,
    lemma_occurs_in_concat,
};

verus! {

/// Metadata tags placed at the start of every page's head.
pub const HEAD_INJECT: &'static str = r#"
<meta charset="utf-8">
<meta name="viewport" content="width=device-width, initial-scale=1">
<link rel="stylesheet" href="/style.css">
<link rel="icon" href="/favicon.ico">
"#;

/// The client side of live reload: it listens on the reload stream, reloads the
/// page on a `reload` event, and after a connection error waits a second and
/// reloads.
pub const LIVE_RELOAD_SCRIPT: &'static str = r#"
<script>
(function() {
  const es = new EventSource('/__typsy_reload');
  es.onmessage = function(e) {
    if (e.data === 'reload') window.location.reload();
  };
  es.onerror = function() {
    setTimeout(function() { window.location.reload(); }, 1000);
  };
})();
</script>
"#;

/// The block inserted into a page's head.
pub open spec fn head_block(dev_mode: bool) -> Seq<char> {
    if dev_mode {
        HEAD_INJECT@ + LIVE_RELOAD_SCRIPT@
    } else {
        HEAD_INJECT@
    }
}

/// `c` with `block` inserted right after the first occurrence of `tag`.
pub open spec fn insert_after_first(c: Seq<char>, tag: Seq<char>, block: Seq<char>) -> Seq<char> {
    let k = first_occurrence(c, tag) + tag.len();
    c.take(k) + block + c.skip(k)
}

/// A minimal page whose head holds `block` and whose body is `c`.
pub open spec fn scaffold(c: Seq<char>, block: Seq<char>) -> Seq<char> {
    "<!DOCTYPE html><html lang=\"en\"><head>"@ + block + "</head><body>"@ + c
        + "</body></html>"@
}

/// The page `c` after injection: the block goes after the first `<head>`; failing
/// that, after the first `<HEAD>`; failing both, `c` is wrapped in a scaffold.
pub open spec fn injected(c: Seq<char>, dev_mode: bool) -> Seq<char> {
    if contains(c, "<head>"@) {
        insert_after_first(c, "<head>"@, head_block(dev_mode))
    } else if contains(c, "<HEAD>"@) {
        insert_after_first(c, "<HEAD>"@, head_block(dev_mode))
    } else {
        scaffold(c, head_block(dev_mode))
    }
}

/// The text inserted into a page's head: the metadata tags, and in development
/// mode the live-reload script after them.
pub fn head_injection(dev_mode: bool) -> (r: String)
    ensures
        r@ == head_block(dev_mode),
{
    let mut s = String::from_str(HEAD_INJECT);
    if dev_mode {
        s.append(LIVE_RELOAD_SCRIPT);
    }
    s
}

/// Inserts `block` right after the first occurrence of `tag`, if there is one.
fn insert_after(content: &str, chars: &Vec<char>, tag: &str, block: &str) -> (r: Option<String>)
    requires
        chars@ == content@,
    ensures
        match r {
            Some(s) => contains(content@, tag@) && s@ == insert_after_first(
                content@,
                tag@,
                block@,
            ),
            None => !contains(content@, tag@),
        },
{
    let tag_chars = chars_of(tag);
    match find_first(chars, &tag_chars) {
        Some(i) => {
            let n = content.unicode_len();
            let k = i + tag_chars.len();
            let mut s = String::from_str(content.substring_char(0, k));
            s.append(block);
            s.append(content.substring_char(k, n));
            proof {
                assert(content@.subrange(0, k as int) == content@.take(k as int));
                assert(content@.subrange(k as int, n as int) == content@.skip(k as int));
            }
            Some(s)
        },
        None => None,
    }
}

/// Injects the head block into the page `content`.
///
/// This is a first-occurrence textual insertion, not an HTML parse: a literal
/// `<head>` that appears before the real head tag receives the block.
pub fn inject_html(content: &str, dev_mode: bool) -> (r: String)
    ensures
        r@ == injected(content@, dev_mode),
{
    let block = head_injection(dev_mode);
    let chars = chars_of(content);
    match insert_after(content, &chars, "<head>", block.as_str()) {
        Some(s) => s,
        None => match insert_after(content, &chars, "<HEAD>", block.as_str()) {
            Some(s) => s,
            None => {
                let mut s = String::from_str("<!DOCTYPE html><html lang=\"en\"><head>");
                s.append(block.as_str());
                s.append("</head><body>");
                s.append(content);
                s.append("</body></html>");
                s
            },
        },
    }
}

/// The two tags that a wrapped page holds once each.
pub open spec fn is_page_tag(t: Seq<char>) -> bool {
    t == "<head>"@ || t == "<body>"@
}

/// `t` occurs in `s` exactly at index `p`.
pub open spec fn occurs_only_at(s: Seq<char>, t: Seq<char>, p: int) -> bool {
    forall|i: int| occurs_at(s, i, t) <==> i == p
}

proof fn lemma_tag_chars(t: Seq<char>)
    requires
        is_page_tag(t),
    ensures
        t.len() == 6,
        t[0] == '<',
        t[1] == 'h' || t[1] == 'b',
        t[5] == '>',
        forall|k: int| 0 < k < 6 ==> t[k] != '<' && t[k] != '\n',
        forall|k: int| 0 <= k < 5 ==> t[k] != '>' && t[k] != '\n',
{
    reveal_strlit("<head>");
    reveal_strlit("<body>");
}

proof fn lemma_first_two(s: Seq<char>, t: Seq<char>, i: int)
    requires
        occurs_at(s, i, t),
        t.len() >= 3,
    ensures
        s[i] == t[0],
        s[i + 1] == t[1],
        s[i + 2] == t[2],
{
    assert(s.subrange(i, i + t.len())[0] == t[0]);
    assert(s.subrange(i, i + t.len())[1] == t[1]);
    assert(s.subrange(i, i + t.len())[2] == t[2]);
}

proof fn lemma_block_has_no_tag(t: Seq<char>, dev_mode: bool)
    requires
        is_page_tag(t),
    ensures
        !contains(head_block(dev_mode), t),
        head_block(dev_mode).len() > 0,
        head_block(dev_mode)[0] == '\n',
        head_block(dev_mode).last() == '\n',
{
    lemma_tag_chars(t);
    reveal_strlit(r#"
<meta charset="utf-8">
<meta name="viewport" content="width=device-width, initial-scale=1">
<link rel="stylesheet" href="/style.css">
<link rel="icon" href="/favicon.ico">
"#);
    reveal_strlit(r#"
<script>
(function() {
  const es = new EventSource('/__typsy_reload');
  es.onmessage = function(e) {
    if (e.data === 'reload') window.location.reload();
  };
  es.onerror = function() {
    setTimeout(function() { window.location.reload(); }, 1000);
  };
})();
</script>
"#);
    let m = HEAD_INJECT@;
    let sc = LIVE_RELOAD_SCRIPT@;
    assert(m == r#"
<meta charset="utf-8">
<meta name="viewport" content="width=device-width, initial-scale=1">
<link rel="stylesheet" href="/style.css">
<link rel="icon" href="/favicon.ico">
"#@);
    assert(sc == r#"
<script>
(function() {
  const es = new EventSource('/__typsy_reload');
  es.onmessage = function(e) {
    if (e.data === 'reload') window.location.reload();
  };
  es.onerror = function() {
    setTimeout(function() { window.location.reload(); }, 1000);
  };
})();
</script>
"#@);
    assert forall|i: int| !occurs_at(m, i, t) by {
        if occurs_at(m, i, t) {
            lemma_first_two(m, t, i);
        }
    }
    assert forall|i: int| !occurs_at(sc, i, t) by {
        if occurs_at(sc, i, t) {
            lemma_first_two(sc, t, i);
        }
    }
    if dev_mode {
        assert(no_straddle(m, sc, t));
        assert forall|i: int| !occurs_at(m + sc, i, t) by {
            lemma_occurs_in_concat(m, sc, t, i);
        }
    }
}

proof fn lemma_literal_tags(t: Seq<char>)
    requires
        is_page_tag(t),
    ensures
        t == "<head>"@ ==> occurs_only_at("<!DOCTYPE html><html lang=\"en\"><head>"@, t, 31),
        t != "<head>"@ ==> !contains("<!DOCTYPE html><html lang=\"en\"><head>"@, t),
        t == "<body>"@ ==> occurs_only_at("</head><body>"@, t, 7),
        t != "<body>"@ ==> !contains("</head><body>"@, t),
        !contains("</body></html>"@, t),
{
    lemma_tag_chars(t);
    let a = "<!DOCTYPE html><html lang=\"en\"><head>"@;
    let b = "</head><body>"@;
    let c = "</body></html>"@;
    reveal_strlit("<!DOCTYPE html><html lang=\"en\"><head>");
    reveal_strlit("</head><body>");
    reveal_strlit("</body></html>");
    reveal_strlit("<head>");
    reveal_strlit("<body>");
    if t == "<head>"@ {
        assert forall|i: int| occurs_at(a, i, t) <==> i == 31 by {
            if occurs_at(a, i, t) {
                lemma_first_two(a, t, i);
            }
            assert(a.subrange(31, 37) =~= t);
        }
        assert forall|i: int| !occurs_at(b, i, t) by {
            if occurs_at(b, i, t) {
                lemma_first_two(b, t, i);
            }
        }
    } else {
        assert forall|i: int| !occurs_at(a, i, t) by {
            if occurs_at(a, i, t) {
                lemma_first_two(a, t, i);
            }
        }
        assert forall|i: int| occurs_at(b, i, t) <==> i == 7 by {
            if occurs_at(b, i, t) {
                lemma_first_two(b, t, i);
            }
            assert(b.subrange(7, 13) =~= t);
        }
    }
    assert forall|i: int| !occurs_at(c, i, t) by {
        if occurs_at(c, i, t) {
            lemma_first_two(c, t, i);
        }
    }
}

/// A page with no head tag, in either casing, and no body tag, is wrapped
/// whole: the result holds exactly one `<head>` and exactly one `<body>`, and
/// between that `<body>` and the `</body>` after it stands the page itself,
/// unchanged.
pub proof fn lemma_headless_page_wrapped(c: Seq<char>, dev_mode: bool)
    requires
        !contains(c, "<head>"@),
        !contains(c, "<HEAD>"@),
        !contains(c, "<body>"@),
    ensures
        ({
            let open = "<!DOCTYPE html><html lang=\"en\"><head>"@ + head_block(dev_mode)
                + "</head><body>"@;
            let r = injected(c, dev_mode);
            &&& r == open + c + "</body></html>"@
            &&& r.subrange(open.len() as int, (open.len() + c.len()) as int) == c
            &&& occurs_only_at(r, "<head>"@, 31)
            &&& occurs_only_at(r, "<body>"@, open.len() - 6)
        }),
{
    let a1 = "<!DOCTYPE html><html lang=\"en\"><head>"@;
    let blk = head_block(dev_mode);
    let a2 = "</head><body>"@;
    let a3 = "</body></html>"@;
    let open = a1 + blk + a2;
    let r = injected(c, dev_mode);
    assert(r =~= open + c + a3);
    assert(r.subrange(open.len() as int, (open.len() + c.len()) as int) =~= c);
    reveal_strlit("<!DOCTYPE html><html lang=\"en\"><head>");
    reveal_strlit("</head><body>");
    reveal_strlit("</body></html>");
    reveal_strlit("<head>");
    reveal_strlit("<body>");
    assert("<head>"@ != "<body>"@) by {
        assert("<head>"@[1] != "<body>"@[1]);
    }
    lemma_tags_in_wrapped(c, blk, "<head>"@, dev_mode);
    lemma_tags_in_wrapped(c, blk, "<body>"@, dev_mode);
}

proof fn lemma_tags_in_wrapped(c: Seq<char>, blk: Seq<char>, t: Seq<char>, dev_mode: bool)
    requires
        is_page_tag(t),
        blk == head_block(dev_mode),
        !contains(c, t),
    ensures
        ({
            let a1 = "<!DOCTYPE html><html lang=\"en\"><head>"@;
            let open = a1 + blk + "</head><body>"@;
            occurs_only_at(
                open + c + "</body></html>"@,
                t,
                if t == "<head>"@ { 31 } else { open.len() - 6 },
            )
        }),
{
    let a1 = "<!DOCTYPE html><html lang=\"en\"><head>"@;
    let a2 = "</head><body>"@;
    let a3 = "</body></html>"@;
    reveal_strlit("<!DOCTYPE html><html lang=\"en\"><head>");
    reveal_strlit("</head><body>");
    reveal_strlit("</body></html>");
    reveal_strlit("<head>");
    reveal_strlit("<body>");
    lemma_tag_chars(t);
    lemma_block_has_no_tag(t, dev_mode);
    lemma_literal_tags(t);
    let u1 = a1 + blk;
    let u2 = u1 + a2;
    let u3 = u2 + c;
    assert(no_straddle(a1, blk, t));
    assert(no_straddle(u1, a2, t));
    assert(no_straddle(u2, c, t));
    assert(no_straddle(u3, a3, t));
    let p = if t == "<head>"@ { 31 } else { u2.len() - 6 };
    assert forall|i: int| occurs_at(u3 + a3, i, t) <==> i == p by {
        lemma_occurs_in_concat(a1, blk, t, i);
        lemma_occurs_in_concat(u1, a2, t, i);
        lemma_occurs_in_concat(u2, c, t, i);
        lemma_occurs_in_concat(u3, a3, t, i);
        if t == "<head>"@ {
            assert(!occurs_at(a2, i - u1.len(), t));
        } else {
            assert(!occurs_at(a1, i, t));
        }
    }
}

} // verus!
