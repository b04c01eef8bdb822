//! File-name rules: the extension of a name, the directory a registered
//! file goes to, and the name a copied template receives.

use vstd::prelude::*;
use vstd::std_specs::iter::IteratorSpec;
use vstd::string::StringExecFns;

verus! {

/// The characters after the last `'.'` of `s`; all of `s` when it holds no `'.'`.
/// This is the last piece of `s` split at every `'.'`.
pub open spec fn after_last_dot(s: Seq<char>) -> Seq<char>
    decreases s.len(),
{
    if s.len() == 0 {
        s
    } else if s.last() == '.' {
        Seq::empty()
    } else {
        after_last_dot(s.drop_last()).push(s.last())
    }
}

/// The extension of a file name: present exactly when the name holds a `'.'`.
pub open spec fn extension_of(name: Seq<char>) -> Option<Seq<char>> {
    if name.contains('.') {
        Some(after_last_dot(name))
    } else {
        None
    }
}

/// The directory, under the template root, that a file is registered in:
/// its extension, or `various` when it has none.
pub open spec fn register_dir_spec(filename: Seq<char>) -> Seq<char> {
    match extension_of(filename) {
        Some(e) => e,
        None => "various"@,
    }
}

/// The name a copied template receives: the name the user typed, or
/// `template` when nothing was typed, then `'.'` and the template's last
/// dot-separated piece.
pub open spec fn copy_name_spec(template: Seq<char>, typed: Seq<char>) -> Seq<char> {
    let stem = if typed.len() == 0 {
        "template"@
    } else {
        typed
    };
    stem.push('.') + after_last_dot(template)
}

/// The line printed once a template was copied.
pub open spec fn copy_announcement_spec(template: Seq<char>, typed: Seq<char>) -> Seq<char> {
    if typed.len() == 0 {
        "template file copy done!!"@
    } else {
        copy_name_spec(template, typed) + " copy done!!"@
    }
}

/// What follows the last `'.'` holds no `'.'`.
pub proof fn lemma_after_last_dot_has_no_dot(s: Seq<char>)
    ensures
        !after_last_dot(s).contains('.'),
    decreases s.len(),
{
    if s.len() > 0 && s.last() != '.' {
        lemma_after_last_dot_has_no_dot(s.drop_last());
        let t = after_last_dot(s.drop_last());
        assert forall|k: int| 0 <= k < t.push(s.last()).len() implies t.push(s.last())[k] != '.' by {
            if k < t.len() {
                assert(t.push(s.last())[k] == t[k]);
            }
        }
    }
}

/// The last dot-separated piece of `a + b` is that of `b` when `b` holds a
/// `'.'`, and that of `a` followed by `b` otherwise.
pub proof fn lemma_after_last_dot_concat(a: Seq<char>, b: Seq<char>)
    ensures
        b.contains('.') ==> after_last_dot(a + b) == after_last_dot(b),
        !b.contains('.') ==> after_last_dot(a + b) == after_last_dot(a) + b,
    decreases b.len(),
{
    if b.len() == 0 {
        assert(a + b =~= a);
        assert(after_last_dot(a) + b =~= after_last_dot(a));
    } else {
        let c = b.last();
        let b0 = b.drop_last();
        assert((a + b).drop_last() =~= a + b0);
        assert((a + b).last() == c);
        lemma_after_last_dot_concat(a, b0);
        if c == '.' {
            assert(b[b.len() - 1] == '.');
        } else {
            assert(b.contains('.') ==> b0.contains('.')) by {
                if b.contains('.') {
                    let k = choose|k: int| 0 <= k < b.len() && b[k] == '.';
                    assert(k < b.len() - 1);
                    assert(b0[k] == '.');
                }
            }
            assert(b0.contains('.') ==> b.contains('.')) by {
                if b0.contains('.') {
                    let k = choose|k: int| 0 <= k < b0.len() && b0[k] == '.';
                    assert(b[k] == '.');
                }
            }
            if !b.contains('.') {
                assert((after_last_dot(a) + b0).push(c) =~= after_last_dot(a) + b);
            }
        }
    }
}

/// Scans `s` once; returns whether it holds a `'.'` and the text after the last one.
fn split_last_dot(s: &str) -> (r: (bool, String))
    ensures
        r.0 == s@.contains('.'),
        r.1@ == after_last_dot(s@),
{
    let n = s.unicode_len();
    let mut found = false;
    let mut start: usize = 0;
    let mut i: usize = 0;
    let mut it = s.chars();
    let ghost all = s@;
    assert(all.take(0) =~= Seq::<char>::empty());
    loop
        invariant
            n == all.len(),
            start <= i <= n,
            it.remaining() == all.subrange(i as int, all.len() as int),
            found == all.take(i as int).contains('.'),
            after_last_dot(all.take(i as int)) == all.subrange(start as int, i as int),
        ensures
            found == all.contains('.'),
            after_last_dot(all) == all.subrange(start as int, n as int),
        decreases all.len() - i,
    {
        match it.next() {
            Some(c) => {
                proof {
                    assert(all.take(i + 1).drop_last() =~= all.take(i as int));
                    assert(all.take(i + 1).last() == c);
                    assert(all.take(i + 1) =~= all.take(i as int).push(c));
                    assert(all.subrange(start as int, i + 1) =~= all.subrange(
                        start as int,
                        i as int,
                    ).push(c));
                }
                if c == '.' {
                    found = true;
                    start = i + 1;
                    assert(all.subrange(start as int, start as int) =~= Seq::<char>::empty());
                }
                i = i + 1;
            },
            None => {
                assert(all.take(i as int) =~= all);
                break;
            },
        }
    }
    (found, String::from_str(s.substring_char(start, n)))
}

/// The extension of `filename`: the text after its last `'.'`, or `None`
/// when the name holds no `'.'`.
pub fn get_file_extension(filename: String) -> (r: Option<String>)
    ensures
        r matches Some(e) ==> extension_of(filename@) == Some(e@),
        r is None <==> extension_of(filename@) is None,
{
    let (found, seg) = split_last_dot(filename.as_str());
    if found {
        Some(seg)
    } else {
        None
    }
}

/// The directory, under the template root, that `filename` is registered in:
/// its extension, or `various` when it has none.
pub fn register_dir_name(filename: &str) -> (r: String)
    ensures
        r@ == register_dir_spec(filename@),
{
    match get_file_extension(String::from_str(filename)) {
        Some(extension) => extension,
        None => String::from_str("various"),
    }
}

/// The name a copy of `template_file_name` receives when the user typed
/// `typed_name`: `typed_name` (or `template` when it is empty), a `'.'`, and the
/// last dot-separated piece of the template's name.
pub fn copy_file_name(template_file_name: &str, typed_name: &str) -> (r: String)
    ensures
        r@ == copy_name_spec(template_file_name@, typed_name@),
{
    let (_, extension) = split_last_dot(template_file_name);
    let mut name = if typed_name.is_empty() {
        String::from_str("template")
    } else {
        String::from_str(typed_name)
    };
    name.append(".");
    name.append(extension.as_str());
    proof {
        reveal_strlit(".");
    }
    name
}

/// The line printed once `template_file_name` was copied under the name the
/// user typed.
pub fn copy_announcement(template_file_name: &str, typed_name: &str) -> (r: String)
    ensures
        r@ == copy_announcement_spec(template_file_name@, typed_name@),
{
    if typed_name.is_empty() {
        String::from_str("template file copy done!!")
    } else {
        let mut line = copy_file_name(template_file_name, typed_name);
        line.append(" copy done!!");
        line
    }
}

/// A name made of a stem, a `'.'` and a dot-free extension has that extension.
pub proof fn law_extension_of_dotted_name(stem: Seq<char>, extension: Seq<char>)
    requires
        !extension.contains('.'),
    ensures
        extension_of(stem.push('.') + extension) == Some(extension),
{
    let s = stem.push('.') + extension;
    assert(s[stem.len() as int] == '.');
    lemma_after_last_dot_concat(stem.push('.'), extension);
    assert(stem.push('.').drop_last() =~= stem);
    assert(after_last_dot(stem.push('.')) =~= Seq::<char>::empty());
    assert(Seq::<char>::empty() + extension =~= extension);
}

/// A copied template keeps the template's last dot-separated piece as its
/// extension, whatever name the user typed.
pub proof fn law_copy_keeps_extension(template: Seq<char>, typed: Seq<char>)
    ensures
        extension_of(copy_name_spec(template, typed)) == Some(after_last_dot(template)),
{
    lemma_after_last_dot_has_no_dot(template);
    let stem = if typed.len() == 0 {
        "template"@
    } else {
        typed
    };
    law_extension_of_dotted_name(stem, after_last_dot(template));
}

/// The last dot-separated piece of `s` is the longest dot-free end of `s`:
/// it holds no `'.'`, it is how `s` ends, and either it is all of `s` or a
/// `'.'` stands just before it.
pub proof fn law_after_last_dot_is_last_piece(s: Seq<char>)
    ensures
        !after_last_dot(s).contains('.'),
        after_last_dot(s).len() <= s.len(),
        s.subrange(s.len() - after_last_dot(s).len(), s.len() as int) == after_last_dot(s),
        after_last_dot(s).len() < s.len() ==> s[s.len() - after_last_dot(s).len() - 1] == '.',
        !s.contains('.') ==> after_last_dot(s) == s,
    decreases s.len(),
{
    lemma_after_last_dot_has_no_dot(s);
    if s.len() == 0 {
        assert(s.subrange(0, 0) =~= s);
    } else if s.last() == '.' {
        assert(s.subrange(s.len() as int, s.len() as int) =~= Seq::<char>::empty());
    } else {
        let p = s.drop_last();
        law_after_last_dot_is_last_piece(p);
        let a = after_last_dot(p);
        assert(s.subrange(s.len() - a.len() - 1, s.len() as int) =~= p.subrange(
            p.len() - a.len(),
            p.len() as int,
        ).push(s.last()));
        if a.len() < p.len() {
            assert(s[s.len() - a.len() - 2] == p[p.len() - a.len() - 1]);
        }
        if !s.contains('.') {
            assert(!p.contains('.')) by {
                if p.contains('.') {
                    let k = choose|k: int| 0 <= k < p.len() && p[k] == '.';
                    assert(s[k] == '.');
                }
            }
            assert(a.push(s.last()) =~= s);
        }
    }
}

/// A copy is named by the whole name the user typed, or by `template` when
/// nothing was typed, then a `'.'`, then the last dot-separated piece of the
/// template's path; nothing of the typed name is dropped or changed.
pub proof fn law_copy_name_parts(template: Seq<char>, typed: Seq<char>)
    ensures
        typed.len() > 0 ==> copy_name_spec(template, typed) == typed.push('.') + after_last_dot(
            template,
        ),
        typed.len() == 0 ==> copy_name_spec(template, typed) == seq![
            't',
            'e',
            'm',
            'p',
            'l',
            'a',
            't',
            'e',
            '.',
        ] + after_last_dot(template),
        typed.len() > 0 ==> copy_name_spec(template, typed).take(typed.len() as int) == typed,
        copy_name_spec(template, typed).len() == (if typed.len() == 0 {
            8
        } else {
            typed.len()
        }) + 1 + after_last_dot(template).len(),
{
    reveal_strlit("template");
    let c = copy_name_spec(template, typed);
    if typed.len() > 0 {
        assert(c.take(typed.len() as int) =~= typed);
    } else {
        assert("template"@.push('.') =~= seq!['t', 'e', 'm', 'p', 'l', 'a', 't', 'e', '.']);
    }
}

} // verus!
