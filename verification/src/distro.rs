//! Choice of the Linux package flavour from the contents of `/etc/os-release`.

use vstd::prelude::*;
use crate::text::{
    ascii_lower, char_is_ws, chars_of, contains_chars, has_prefix, has_substring, is_ws, lower_chars,
    occurs_at, occurs_at_chars, starts_with_chars, strip_char, strip_char_chars,
};

verus! {

/// `x` without one trailing carriage return.
pub open spec fn strip_cr(x: Seq<char>) -> Seq<char> {
    if x.len() > 0 && x.last() == '\r' {
        x.drop_last()
    } else {
        x
    }
}

/// The lines of `s` that follow the current, unfinished line `cur`.
pub open spec fn lines_from(s: Seq<char>, cur: Seq<char>) -> Seq<Seq<char>>
    decreases s.len(),
{
    if s.len() == 0 {
        if cur.len() == 0 {
            seq![]
        } else {
            seq![cur]
        }
    } else if s[0] == '\n' {
        seq![strip_cr(cur)] + lines_from(s.drop_first(), seq![])
    } else {
        lines_from(s.drop_first(), cur.push(s[0]))
    }
}

/// The lines of `s` as `str::lines` yields them: split after each `'\n'`,
/// the newline and one carriage return before it dropped, no empty last line.
pub open spec fn text_lines(s: Seq<char>) -> Seq<Seq<char>> {
    lines_from(s, seq![])
}

/// What follows `key` on the last line that starts with `key`.
pub open spec fn last_field(lines: Seq<Seq<char>>, key: Seq<char>) -> Option<Seq<char>>
    decreases lines.len(),
{
    if lines.len() == 0 {
        None
    } else if has_prefix(lines.last(), key) {
        Some(lines.last().skip(key.len() as int))
    } else {
        last_field(lines.drop_last(), key)
    }
}

/// The value of an `os-release` key: unquoted and folded to ASCII lower case,
/// empty where no line sets it.
pub open spec fn release_value(lines: Seq<Seq<char>>, key: Seq<char>) -> Seq<char> {
    match last_field(lines, key) {
        Some(v) => ascii_lower(strip_char(v, '"')),
        None => seq![],
    }
}

/// The `ID` of an `os-release` text.
pub open spec fn release_id(os_release: Seq<char>) -> Seq<char> {
    release_value(text_lines(os_release), "ID="@)
}

/// The `ID_LIKE` of an `os-release` text.
pub open spec fn release_id_like(os_release: Seq<char>) -> Seq<char> {
    release_value(text_lines(os_release), "ID_LIKE="@)
}

/// `ID` and `ID_LIKE` joined by one space.
pub open spec fn release_haystack(os_release: Seq<char>) -> Seq<char> {
    release_id(os_release) + seq![' '] + release_id_like(os_release)
}

/// Distribution identifiers of the Arch family.
pub open spec fn arch_ids() -> Seq<Seq<char>> {
    seq![
        "arch"@,
        "archarm"@,
        "manjaro"@,
        "endeavouros"@,
        "garuda"@,
        "cachyos"@,
        "artix"@,
        "archcraft"@,
        "arcolinux"@,
    ]
}

/// Distribution identifiers of the RPM family.
pub open spec fn rpm_ids() -> Seq<Seq<char>> {
    seq![
        "fedora"@,
        "rhel"@,
        "centos"@,
        "rocky"@,
        "almalinux"@,
        "ol"@,
        "opensuse"@,
        "opensuse-tumbleweed"@,
        "opensuse-leap"@,
        "sles"@,
        "mageia"@,
        "nobara"@,
    ]
}

/// Distribution identifiers of the Debian family.
pub open spec fn debian_ids() -> Seq<Seq<char>> {
    seq![
        "debian"@,
        "ubuntu"@,
        "linuxmint"@,
        "pop"@,
        "elementary"@,
        "zorin"@,
        "kali"@,
        "raspbian"@,
        "neon"@,
        "tails"@,
    ]
}

/// `t` is one of the whitespace-separated words of `h`.
pub open spec fn has_word(h: Seq<char>, t: Seq<char>) -> bool {
    exists|i: int|
        occurs_at(h, t, i) && (i == 0 || is_ws(h[i - 1])) && (i + t.len() == h.len() || is_ws(
            h[i + t.len()],
        ))
}

/// The package flavour: `"appimage"` when running from an AppImage, else
/// the first family that `ID` or `ID_LIKE` names, `"appimage"` when none does.
pub open spec fn package_key(running_appimage: bool, os_release: Seq<char>) -> Seq<char> {
    let id = release_id(os_release);
    let h = release_haystack(os_release);
    if running_appimage {
        "appimage"@
    } else if arch_ids().contains(id) || has_substring(h, "arch"@) {
        "pacman"@
    } else if rpm_ids().contains(id) || has_word(h, "fedora"@) || has_word(h, "rhel"@) || has_word(
        h,
        "centos"@,
    ) || has_word(h, "suse"@) {
        "rpm"@
    } else if debian_ids().contains(id) || has_substring(h, "debian"@) || has_substring(
        h,
        "ubuntu"@,
    ) {
        "debian"@
    } else {
        "appimage"@
    }
}

/// A text found in `ID_LIKE` is found in the haystack `ID ID_LIKE`.
proof fn lemma_id_like_in_haystack(os_release: Seq<char>, t: Seq<char>)
    requires
        has_substring(release_id_like(os_release), t),
    ensures
        has_substring(release_haystack(os_release), t),
{
    let l = release_id_like(os_release);
    let h = release_haystack(os_release);
    let i = choose|i: int| occurs_at(l, t, i);
    let off = release_id(os_release).len() + 1;
    assert(h.subrange(off + i, off + i + t.len()) =~= l.subrange(i, i + t.len()));
    assert(occurs_at(h, t, off + i));
}

/// A system of neither the Arch nor the RPM family: its `ID` is none of those
/// families' identifiers, `arch` occurs nowhere in `ID` or `ID_LIKE`, and
/// neither names `fedora`, `rhel`, `centos` or `suse` as a word.
pub open spec fn outside_arch_and_rpm(os_release: Seq<char>) -> bool {
    let id = release_id(os_release);
    let h = release_haystack(os_release);
    &&& !arch_ids().contains(id)
    &&& !has_substring(h, "arch"@)
    &&& !rpm_ids().contains(id)
    &&& !has_word(h, "fedora"@)
    &&& !has_word(h, "rhel"@)
    &&& !has_word(h, "centos"@)
    &&& !has_word(h, "suse"@)
}

/// A Debian or Ubuntu derivative gets Debian packages: outside an AppImage,
/// a system of neither the Arch nor the RPM family whose `ID` or `ID_LIKE`
/// mentions `debian` or `ubuntu` (such as `ID=parrot`, `ID_LIKE=debian`) has
/// the key `"debian"`.
pub proof fn lemma_debian_derivatives(os_release: Seq<char>)
    requires
        outside_arch_and_rpm(os_release),
        has_substring(release_id(os_release), "debian"@)
            || has_substring(release_id(os_release), "ubuntu"@)
            || has_substring(release_id_like(os_release), "debian"@)
            || has_substring(release_id_like(os_release), "ubuntu"@),
    ensures
        package_key(false, os_release) == "debian"@,
{
    let id = release_id(os_release);
    let h = release_haystack(os_release);
    if has_substring(release_id_like(os_release), "debian"@) {
        lemma_id_like_in_haystack(os_release, "debian"@);
    } else if has_substring(release_id_like(os_release), "ubuntu"@) {
        lemma_id_like_in_haystack(os_release, "ubuntu"@);
    } else if has_substring(id, "debian"@) {
        let i = choose|i: int| occurs_at(id, "debian"@, i);
        assert(h.subrange(i, i + 6) =~= id.subrange(i, i + 6)) by {
            reveal_strlit("debian");
        }
        reveal_strlit("debian");
        assert(occurs_at(h, "debian"@, i));
    } else {
        let i = choose|i: int| occurs_at(id, "ubuntu"@, i);
        reveal_strlit("ubuntu");
        assert(h.subrange(i, i + 6) =~= id.subrange(i, i + 6));
        assert(occurs_at(h, "ubuntu"@, i));
    }
}

/// Outside an AppImage the key is always one of the four families, and it
/// is `"appimage"` exactly when no family matches.
pub proof fn lemma_key_values(running_appimage: bool, os_release: Seq<char>)
    ensures
        package_key(running_appimage, os_release) == "appimage"@ || package_key(
            running_appimage,
            os_release,
        ) == "pacman"@ || package_key(running_appimage, os_release) == "rpm"@ || package_key(
            running_appimage,
            os_release,
        ) == "debian"@,
        running_appimage ==> package_key(running_appimage, os_release) == "appimage"@,
{
}

proof fn lemma_lines_step(s: Seq<char>, i: int, cur: Seq<char>)
    requires
        0 <= i < s.len(),
    ensures
        lines_from(s.skip(i), cur) == if s[i] == '\n' {
            seq![strip_cr(cur)] + lines_from(s.skip(i + 1), seq![])
        } else {
            lines_from(s.skip(i + 1), cur.push(s[i]))
        },
{
    assert(s.skip(i).drop_first() =~= s.skip(i + 1));
    assert(s.skip(i)[0] == s[i]);
}

proof fn lemma_last_field_push(lines: Seq<Seq<char>>, line: Seq<char>, key: Seq<char>)
    ensures
        last_field(lines.push(line), key) == if has_prefix(line, key) {
            Some(line.skip(key.len() as int))
        } else {
            last_field(lines, key)
        },
{
    assert(lines.push(line).drop_last() =~= lines);
}

/// The value after `key` when `line` starts with it.
fn field_after(line: &Vec<char>, key: &Vec<char>) -> (r: Option<Vec<char>>)
    ensures
        r is Some <==> has_prefix(line@, key@),
        r matches Some(v) ==> v@ == ascii_lower(strip_char(line@.skip(key@.len() as int), '"')),
{
    if !starts_with_chars(line, key) {
        return None;
    }
    let mut rest: Vec<char> = Vec::new();
    let mut k: usize = key.len();
    while k < line.len()
        invariant
            key.len() <= k <= line.len(),
            rest@ == line@.subrange(key.len() as int, k as int),
        decreases line.len() - k,
    {
        rest.push(line[k]);
        assert(line@.subrange(key.len() as int, k as int).push(line@[k as int])
            =~= line@.subrange(key.len() as int, k + 1));
        k = k + 1;
    }
    assert(rest@ =~= line@.skip(key@.len() as int));
    let unquoted = strip_char_chars(&rest, '"');
    Some(lower_chars(&unquoted))
}

/// `ID` and `ID_LIKE` of an `os-release` text.
fn release_fields(text: &Vec<char>) -> (r: (Vec<char>, Vec<char>))
    ensures
        r.0@ == release_id(text@),
        r.1@ == release_id_like(text@),
{
    let id_key = chars_of("ID=");
    let like_key = chars_of("ID_LIKE=");
    let mut id: Vec<char> = Vec::new();
    let mut id_like: Vec<char> = Vec::new();
    let mut cur: Vec<char> = Vec::new();
    let ghost mut done: Seq<Seq<char>> = seq![];
    let mut i: usize = 0;
    proof {
        assert(text@.skip(0) =~= text@);
    }
    while i < text.len()
        invariant
            i <= text.len(),
            id_key@ == "ID="@,
            like_key@ == "ID_LIKE="@,
            text_lines(text@) == done + lines_from(text@.skip(i as int), cur@),
            id@ == release_value(done, "ID="@),
            id_like@ == release_value(done, "ID_LIKE="@),
        decreases text.len() - i,
    {
        let c = text[i];
        proof {
            lemma_lines_step(text@, i as int, cur@);
        }
        if c == '\n' {
            let line = if cur.len() > 0 && cur[cur.len() - 1] == '\r' {
                let mut l = cur.clone();
                l.pop();
                l
            } else {
                cur.clone()
            };
            assert(line@ == strip_cr(cur@));
            proof {
                lemma_last_field_push(done, line@, "ID="@);
                lemma_last_field_push(done, line@, "ID_LIKE="@);
                assert(done + (seq![strip_cr(cur@)] + lines_from(text@.skip(i + 1), seq![]))
                    =~= done.push(line@) + lines_from(text@.skip(i + 1), seq![]));
                done = done.push(line@);
            }
            match field_after(&line, &id_key) {
                Some(v) => {
                    id = v;
                },
                None => {},
            }
            match field_after(&line, &like_key) {
                Some(v) => {
                    id_like = v;
                },
                None => {},
            }
            cur = Vec::new();
            assert(cur@ =~= Seq::<char>::empty());
        } else {
            cur.push(c);
        }
        i = i + 1;
    }
    if cur.len() > 0 {
        proof {
            lemma_last_field_push(done, cur@, "ID="@);
            lemma_last_field_push(done, cur@, "ID_LIKE="@);
            assert(text@.skip(i as int) =~= Seq::<char>::empty());
            assert(done + seq![cur@] =~= done.push(cur@));
        }
        match field_after(&cur, &id_key) {
            Some(v) => {
                id = v;
            },
            None => {},
        }
        match field_after(&cur, &like_key) {
            Some(v) => {
                id_like = v;
            },
            None => {},
        }
    } else {
        proof {
            assert(text@.skip(i as int) =~= Seq::<char>::empty());
            assert(done + seq![] =~= done);
        }
    }
    (id, id_like)
}

/// Is `id` one of `names`?
fn is_one_of(id: &Vec<char>, names: &[&str]) -> (r: bool)
    ensures
        r == names@.map_values(|n: &str| n@).contains(id@),
{
    let mut k: usize = 0;
    while k < names.len()
        invariant
            k <= names.len(),
            forall|j: int| 0 <= j < k ==> names@[j]@ != id@,
        decreases names.len() - k,
    {
        let n = chars_of(names[k]);
        if n.len() == id.len() && starts_with_chars(id, &n) {
            assert(id@ =~= n@);
            assert(names@.map_values(|n: &str| n@)[k as int] == id@);
            return true;
        }
        assert(n@ != id@) by {
            if n@ == id@ {
                assert(id@.subrange(0, n@.len() as int) =~= id@);
            }
        }
        k = k + 1;
    }
    let ghost views = names@.map_values(|n: &str| n@);
    assert forall|j: int| 0 <= j < views.len() implies #[trigger] views[j] != id@ by {
        assert(views[j] == names@[j]@);
    }
    false
}

/// Is `t` one of the whitespace-separated words of `h`?
fn has_word_chars(h: &Vec<char>, t: &Vec<char>) -> (r: bool)
    requires
        t.len() > 0,
    ensures
        r == has_word(h@, t@),
{
    let mut at: usize = 0;
    while at < h.len()
        invariant
            at <= h.len(),
            forall|k: int|
                0 <= k < at ==> !(occurs_at(h@, t@, k) && (k == 0 || is_ws(h@[k - 1])) && (k
                    + t@.len() == h@.len() || is_ws(h@[k + t@.len()]))),
        decreases h.len() - at,
    {
        if occurs_at_chars(h, t, at) {
            let before = at == 0 || char_is_ws(h[at - 1]);
            let end = at + t.len();
            let after = end == h.len() || char_is_ws(h[end]);
            if before && after {
                return true;
            }
        }
        at = at + 1;
    }
    assert forall|k: int|
        !(occurs_at(h@, t@, k) && (k == 0 || is_ws(h@[k - 1])) && (k + t@.len() == h@.len()
            || is_ws(h@[k + t@.len()]))) by {
        if occurs_at(h@, t@, k) {
            assert(k < at);
        }
    }
    false
}

/// The Linux package flavour whose download fits this system: `"appimage"`
/// when `running_appimage` (the `APPIMAGE` variable is set), else the family
/// that the `ID` or `ID_LIKE` of `os_release` (the text of `/etc/os-release`,
/// empty when it cannot be read) belongs to: `"pacman"`, `"rpm"` or
/// `"debian"`, and `"appimage"` when none matches.
pub fn linux_package_key(running_appimage: bool, os_release: &str) -> (r: &'static str)
    ensures
        r@ == package_key(running_appimage, os_release@),
{
    if running_appimage {
        return "appimage";
    }
    let text = chars_of(os_release);
    let (id, id_like) = release_fields(&text);
    let mut h = id.clone();
    h.push(' ');
    let mut k: usize = 0;
    let ghost h0 = h@;
    while k < id_like.len()
        invariant
            k <= id_like.len(),
            h@ == h0 + id_like@.take(k as int),
        decreases id_like.len() - k,
    {
        h.push(id_like[k]);
        assert(h0 + id_like@.take(k as int).push(id_like@[k as int]) =~= h0 + id_like@.take(
            k + 1,
        ));
        k = k + 1;
    }
    assert(id_like@.take(id_like.len() as int) =~= id_like@);
    assert(h@ =~= release_haystack(os_release@));
    let arch: [&str; 9] = [
        "arch",
        "archarm",
        "manjaro",
        "endeavouros",
        "garuda",
        "cachyos",
        "artix",
        "archcraft",
        "arcolinux",
    ];
    assert(arch@.map_values(|n: &str| n@) =~= arch_ids());
    if is_one_of(&id, &arch) || contains_chars(&h, &chars_of("arch")) {
        return "pacman";
    }
    let rpm: [&str; 12] = [
        "fedora",
        "rhel",
        "centos",
        "rocky",
        "almalinux",
        "ol",
        "opensuse",
        "opensuse-tumbleweed",
        "opensuse-leap",
        "sles",
        "mageia",
        "nobara",
    ];
    assert(rpm@.map_values(|n: &str| n@) =~= rpm_ids());
    let fedora = chars_of("fedora");
    let rhel = chars_of("rhel");
    let centos = chars_of("centos");
    let suse = chars_of("suse");
    proof {
        reveal_strlit("fedora");
        reveal_strlit("rhel");
        reveal_strlit("centos");
        reveal_strlit("suse");
    }
    if is_one_of(&id, &rpm) || has_word_chars(&h, &fedora) || has_word_chars(&h, &rhel)
        || has_word_chars(&h, &centos) || has_word_chars(&h, &suse) {
        return "rpm";
    }
    let debian: [&str; 10] = [
        "debian",
        "ubuntu",
        "linuxmint",
        "pop",
        "elementary",
        "zorin",
        "kali",
        "raspbian",
        "neon",
        "tails",
    ];
    assert(debian@.map_values(|n: &str| n@) =~= debian_ids());
    if is_one_of(&id, &debian) || contains_chars(&h, &chars_of("debian")) || contains_chars(
        &h,
        &chars_of("ubuntu"),
    ) {
        return "debian";
    }
    "appimage"
}

} // verus!
