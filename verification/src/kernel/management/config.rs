//! The environment file: its variables listed and set.
use crate::kernel::management::{HttpError, HttpErrorView};
use crate::text::{
    cat2, cat3, chars_of, has_prefix, index_of, index_of_at, index_of_first, is_alnum, is_alpha,
    is_blank, is_space, join, joined, joined_lines_read_back, lines, lines_are_lines, lines_of, own,
    pack, replace_with, seek, starts_with, swap_text, trim, trim_empty, trim_end, trim_end_behind,
    trim_of_tight, trim_start, trimmed, view_opt, views,
};
use vstd::prelude::*;

verus! {

/// A variable of the environment file. Its value is not shown.
pub struct EnvItem {
    pub key: String,
    pub has_value: bool,
}

/// The mathematical content of a [`EnvItem`].
pub struct EnvItemView {
    pub key: Seq<char>,
    pub has_value: bool,
}

impl View for EnvItem {
    type V = EnvItemView;

    open spec fn view(&self) -> EnvItemView {
        EnvItemView {
            key: self.key@,
            has_value: self.has_value,
        }
    }
}

/// A value to set.
pub struct SetEnvRequest {
    pub value: String,
}

/// The mathematical content of a [`SetEnvRequest`].
pub struct SetEnvRequestView {
    pub value: Seq<char>,
}

impl View for SetEnvRequest {
    type V = SetEnvRequestView;

    open spec fn view(&self) -> SetEnvRequestView {
        SetEnvRequestView {
            value: self.value@,
        }
    }
}

/// A variable that was set.
pub struct SetEnvResponse {
    pub key: String,
    pub set: bool,
}

/// The mathematical content of a [`SetEnvResponse`].
pub struct SetEnvResponseView {
    pub key: Seq<char>,
    pub set: bool,
}

impl View for SetEnvResponse {
    type V = SetEnvResponseView;

    open spec fn view(&self) -> SetEnvResponseView {
        SetEnvResponseView {
            key: self.key@,
            set: self.set,
        }
    }
}

/// A value that must be quoted: it holds a space, a quote, a line feed, a hash or
/// a dollar sign.
pub open spec fn needs_quotes(v: Seq<char>) -> bool {
    v.contains(' ') || v.contains('"') || v.contains('\'') || v.contains('\n') || v.contains('#')
        || v.contains('$')
}

/// A value as it is written: quoted and escaped where it must be, else as it is.
pub open spec fn escaped(v: Seq<char>) -> Seq<char> {
    if needs_quotes(v) {
        "\""@ + replace_with(
            replace_with(replace_with(v, '\\', "\\\\"@), '"', "\\\""@),
            '\n',
            "\\n"@,
        ) + "\""@
    } else {
        v
    }
}

/// Whether a character stands in a text.
fn has_char(s: &str, c: char) -> (r: bool)
    ensures
        r == s@.contains(c),
{
    let v = chars_of(s);
    let mut i: usize = 0;
    while i < v.len()
        invariant
            i <= v@.len(),
            v@ == s@,
            forall|k: int| 0 <= k < i ==> v@[k] != c,
        decreases v@.len() - i,
    {
        if v[i] == c {
            assert(s@[i as int] == c);
            return true;
        }
        i = i + 1;
    }
    false
}

/// A value as it is written to the environment file.
pub fn escape_env_value(value: &str) -> (r: String)
    ensures
        r@ == escaped(value@),
{
    if has_char(value, ' ') || has_char(value, '"') || has_char(value, '\'') || has_char(
        value,
        '\n',
    ) || has_char(value, '#') || has_char(value, '$') {
        let a = swap_text(value, '\\', "\\\\");
        let b = swap_text(&a, '"', "\\\"");
        let c = swap_text(&b, '\n', "\\n");
        cat3("\"", &c, "\"")
    } else {
        own(value)
    }
}

/// The variable that a line sets. Blank lines, comments and lines without an
/// equals sign set none.
pub open spec fn env_item(line: Seq<char>) -> Option<EnvItemView> {
    let t = trim(line);
    let i = index_of(t, '=');
    if t.len() == 0 || t[0] == '#' || !(0 <= i < t.len()) {
        None
    } else {
        Some(
            EnvItemView {
                key: trim(t.subrange(0, i)),
                has_value: trim(t.subrange(i + 1, t.len() as int)).len() > 0,
            },
        )
    }
}

/// The variables that some lines set, in order.
pub open spec fn env_items(ls: Seq<Seq<char>>) -> Seq<EnvItemView>
    decreases ls.len(),
{
    if ls.len() == 0 {
        Seq::empty()
    } else {
        match env_item(ls.last()) {
            Some(x) => env_items(ls.drop_last()).push(x),
            None => env_items(ls.drop_last()),
        }
    }
}

/// The variable that a line sets.
fn read_line(line: &str) -> (r: Option<EnvItem>)
    ensures
        view_opt(r) == env_item(line@),
{
    let t = trimmed(line);
    let v = chars_of(&t);
    if v.len() == 0 || v[0] == '#' {
        return None;
    }
    proof {
        assert(v@.subrange(0, v@.len() as int) =~= v@);
    }
    let i: usize = seek(&v, '=', 0);
    if i == v.len() {
        return None;
    }
    let key = trimmed(&pack(&v, 0, i));
    let value = pack(&v, i + 1, v.len());
    Some(EnvItem { key, has_value: !is_blank(&value) })
}

/// The variables of an environment file, each with whether it has a value.
pub fn list_env(content: &str) -> (r: Vec<EnvItem>)
    ensures
        views(r@) == env_items(lines(content@)),
{
    let ls = lines_of(content);
    let ghost all = views(ls@);
    let mut out: Vec<EnvItem> = Vec::new();
    let mut i: usize = 0;
    assert(views(out@) =~= env_items(all.subrange(0, 0)));
    while i < ls.len()
        invariant
            i <= ls@.len(),
            all == views(ls@),
            views(out@) == env_items(all.subrange(0, i as int)),
        decreases ls@.len() - i,
    {
        let ghost before = out@;
        proof {
            let t = all.subrange(0, i + 1);
            assert(t.drop_last() =~= all.subrange(0, i as int));
            assert(t.last() == ls@[i as int]@);
        }
        match read_line(&ls[i]) {
            Some(x) => {
                out.push(x);
                assert(views(out@) =~= views(before).push(x@));
            },
            None => {},
        }
        i = i + 1;
    }
    assert(all.subrange(0, i as int) =~= all);
    out
}

/// A name of a variable: a letter or an underscore, then letters, digits and
/// underscores. All of them ASCII.
pub open spec fn valid_name(key: Seq<char>) -> bool {
    key.len() > 0 && (is_alpha(key[0]) || key[0] == '_') && forall|i: int|
        0 <= i < key.len() ==> is_alnum(#[trigger] key[i]) || key[i] == '_'
}

/// Why a name is refused.
pub open spec fn name_problem(key: Seq<char>) -> Option<Seq<char>> {
    if key.len() == 0 {
        Some("Environment variable name cannot be empty"@)
    } else if !(is_alpha(key[0]) || key[0] == '_') {
        Some("Environment variable name must start with a letter or underscore"@)
    } else if !valid_name(key) {
        Some(
            "Environment variable name must contain only alphanumeric characters and underscores"@,
        )
    } else {
        None
    }
}

/// Whether a character is an ASCII letter.
fn alpha(c: char) -> (r: bool)
    ensures
        r == is_alpha(c),
{
    ('a' <= c && c <= 'z') || ('A' <= c && c <= 'Z')
}

/// Why a name is refused.
pub fn check_env_name(key: &str) -> (r: Option<String>)
    ensures
        view_opt(r) == name_problem(key@),
{
    let v = chars_of(key);
    if v.len() == 0 {
        return Some(own("Environment variable name cannot be empty"));
    }
    if !alpha(v[0]) && v[0] != '_' {
        return Some(own("Environment variable name must start with a letter or underscore"));
    }
    let mut i: usize = 0;
    while i < v.len()
        invariant
            i <= v@.len(),
            v@ == key@,
            v@.len() > 0,
            is_alpha(v@[0]) || v@[0] == '_',
            forall|k: int| 0 <= k < i ==> is_alnum(#[trigger] v@[k]) || v@[k] == '_',
        decreases v@.len() - i,
    {
        let c = v[i];
        if !(alpha(c) || ('0' <= c && c <= '9') || c == '_') {
            assert(!(is_alnum(key@[i as int]) || key@[i as int] == '_'));
            return Some(
                own(
                    "Environment variable name must contain only alphanumeric characters and underscores",
                ),
            );
        }
        i = i + 1;
    }
    None
}

/// A line sets the variable.
pub open spec fn sets(line: Seq<char>, key: Seq<char>) -> bool {
    starts_with(trim(line), key + "="@)
}

/// The lines once a variable is set: the first line that sets it is replaced,
/// or a line is added at the end.
pub open spec fn with_env(ls: Seq<Seq<char>>, key: Seq<char>, value: Seq<char>) -> Seq<Seq<char>>
    decreases ls.len(),
{
    if ls.len() == 0 {
        seq![key + "="@ + escaped(value)]
    } else if sets(ls[0], key) {
        ls.update(0, key + "="@ + escaped(value))
    } else {
        seq![ls[0]] + with_env(ls.drop_first(), key, value)
    }
}

/// An environment file once a variable is set.
pub open spec fn env_after(content: Seq<char>, key: Seq<char>, value: Seq<char>) -> Seq<char> {
    join(with_env(lines(content), key, value), "\n"@) + "\n"@
}

/// Sets a variable in an environment file: gives the file's new content and the
/// answer, or refuses the name.
pub fn set_env(content: &str, key: &str, req: &SetEnvRequest) -> (r: Result<
    (String, SetEnvResponse),
    HttpError,
>)
    ensures
        match r {
            Ok(x) => valid_name(key@) && x.0@ == env_after(content@, key@, req.value@) && x.1@ == (
            SetEnvResponseView { key: key@, set: true }),
            Err(e) => !valid_name(key@) && e@ == (HttpErrorView {
                status: 400,
                message: name_problem(key@)->Some_0,
            }),
        },
{
    match check_env_name(key) {
        Some(message) => {
            return Err(HttpError { status: 400, message });
        },
        None => {},
    }
    let mut ls = lines_of(content);
    let ghost all = views(ls@);
    let prefix = cat2(key, "=");
    let line = cat2(&prefix, &escape_env_value(&req.value));
    let mut i: usize = 0;
    let mut found = false;
    proof {
        assert(all.subrange(0, all.len() as int) =~= all);
        assert(all.subrange(0, 0) + with_env(all, key@, req.value@) =~= with_env(
            all,
            key@,
            req.value@,
        ));
    }
    while i < ls.len() && !found
        invariant
            i <= ls@.len(),
            prefix@ == key@ + "="@,
            line@ == key@ + "="@ + escaped(req.value@),
            !found ==> views(ls@) == all,
            !found ==> all.subrange(0, i as int) + with_env(
                all.subrange(i as int, all.len() as int),
                key@,
                req.value@,
            ) == with_env(all, key@, req.value@),
            found ==> views(ls@) == with_env(all, key@, req.value@),
        decreases ls@.len() - i,
    {
        let t = trimmed(&ls[i]);
        let hit = has_prefix(&t, &prefix);
        proof {
            let rest = all.subrange(i as int, all.len() as int);
            assert(rest[0] == ls@[i as int]@);
            assert(rest.drop_first() =~= all.subrange(i + 1, all.len() as int));
            if hit {
                assert(all.subrange(0, i as int) + rest.update(0, line@) =~= all.update(
                    i as int,
                    line@,
                ));
            } else {
                assert(all.subrange(0, i as int) + (seq![rest[0]] + with_env(
                    rest.drop_first(),
                    key@,
                    req.value@,
                )) =~= all.subrange(0, i + 1) + with_env(rest.drop_first(), key@, req.value@));
            }
        }
        if hit {
            ls.set(i, line.clone());
            found = true;
            assert(views(ls@) =~= all.update(i as int, line@));
        }
        i = i + 1;
    }
    if !found {
        proof {
            assert(all.subrange(i as int, all.len() as int) =~= Seq::empty());
            assert(all.subrange(0, i as int) + seq![line@] =~= all.push(line@));
        }
        ls.push(line);
        assert(views(ls@) =~= all.push(line@));
    }
    let text = joined(&ls, "\n");
    Ok((cat2(&text, "\n"), SetEnvResponse { key: own(key), set: true }))
}

// ---------------------------------------------------------------------------
// Laws
// ---------------------------------------------------------------------------

/// Replacing a character by a text without line feeds leaves no line feed that was
/// not there, and none at all where the line feed itself is replaced.
proof fn replaced_is_one_line(s: Seq<char>, from: char, to: Seq<char>)
    requires
        !to.contains('\n'),
        from == '\n' || !s.contains('\n'),
    ensures
        !replace_with(s, from, to).contains('\n'),
    decreases s.len(),
{
    if s.len() > 0 {
        let init = s.drop_last();
        if from != '\n' {
            assert(!init.contains('\n')) by {
                if init.contains('\n') {
                    let i = choose|i: int| 0 <= i < init.len() && init[i] == '\n';
                    assert(s[i] == '\n');
                }
            }
            assert(s[s.len() - 1] != '\n');
        }
        replaced_is_one_line(init, from, to);
        let r = replace_with(s, from, to);
        let a = replace_with(init, from, to);
        if r.contains('\n') {
            let i = choose|i: int| 0 <= i < r.len() && r[i] == '\n';
            if i < a.len() {
                assert(a[i] == '\n');
            } else if s.last() == from {
                assert(to[i - a.len()] == '\n');
            }
        }
    }
}

/// However many line feeds a value holds, it is written on one line.
pub proof fn escaped_is_one_line(v: Seq<char>)
    ensures
        !escaped(v).contains('\n'),
{
    if needs_quotes(v) {
        reveal_strlit("\\n");
        reveal_strlit("\"");
        let inner = replace_with(replace_with(v, '\\', "\\\\"@), '"', "\\\""@);
        assert(!"\\n"@.contains('\n'));
        replaced_is_one_line(inner, '\n', "\\n"@);
        let body = replace_with(inner, '\n', "\\n"@);
        let r = escaped(v);
        if r.contains('\n') {
            let i = choose|i: int| 0 <= i < r.len() && r[i] == '\n';
            if 1 <= i < 1 + body.len() {
                assert(body[i - 1] == '\n');
            }
        }
    }
}

/// A valid name holds neither an equals sign nor white space nor a hash.
proof fn name_characters(key: Seq<char>)
    requires
        valid_name(key),
    ensures
        forall|i: int|
            0 <= i < key.len() ==> key[i] != '=' && !is_space(#[trigger] key[i]) && key[i] != '#'
                && key[i] != '\n',
{
    assert forall|i: int| 0 <= i < key.len() implies key[i] != '=' && !is_space(#[trigger] key[i])
        && key[i] != '#' && key[i] != '\n' by {
        assert(is_alnum(key[i]) || key[i] == '_');
    }
}

/// The line of a variable trims to the name, the equals sign and the value
/// without the white space behind it.
proof fn written_line_trims(key: Seq<char>, v: Seq<char>)
    requires
        valid_name(key),
    ensures
        trim(key + "="@ + v) == key + "="@ + trim_end(v),
        sets(key + "="@ + v, key),
{
    reveal_strlit("=");
    name_characters(key);
    let head = key + "="@;
    let line = head + v;
    assert(line[0] == key[0]);
    assert(trim_start(line) == line);
    assert(head.last() == '=');
    trim_end_behind(head, v);
    let t = head + trim_end(v);
    assert(t.subrange(0, head.len() as int) =~= head);
}

/// A variable that was set is listed, with a value unless the value is blank.
pub proof fn written_line_is_listed(key: Seq<char>, value: Seq<char>)
    requires
        valid_name(key),
    ensures
        env_item(key + "="@ + escaped(value)) == Some(
            EnvItemView { key, has_value: trim(escaped(value)).len() > 0 },
        ),
{
    reveal_strlit("=");
    name_characters(key);
    let v = escaped(value);
    written_line_trims(key, v);
    let t = key + "="@ + trim_end(v);
    assert(t[0] == key[0]);
    assert(t[key.len() as int] == '=');
    assert forall|k: int| 0 <= k < key.len() implies t[k] != '=' by {
        assert(t[k] == key[k]);
    }
    index_of_at(t, '=', key.len() as int);
    assert(t.subrange(0, key.len() as int) =~= key);
    trim_of_tight(key);
    assert(t.subrange(key.len() as int + 1, t.len() as int) =~= trim_end(v));
    trim_empty(v);
    trim_empty(trim_end(v));
    trim_end_prefix(v);
    if trim(v).len() > 0 && trim(trim_end(v)).len() == 0 {
        let i = choose|i: int| 0 <= i < v.len() && !is_space(#[trigger] v[i]);
        if i < trim_end(v).len() {
            assert(trim_end(v)[i] == v[i]);
        }
    }
    if trim(trim_end(v)).len() > 0 && trim(v).len() == 0 {
        let i = choose|i: int| 0 <= i < trim_end(v).len() && !is_space(#[trigger] trim_end(v)[i]);
        assert(trim_end(v)[i] == v[i]);
    }
}

/// Trimming the end cuts off white space and nothing else.
proof fn trim_end_prefix(v: Seq<char>)
    ensures
        trim_end(v).len() <= v.len(),
        forall|i: int| 0 <= i < trim_end(v).len() ==> #[trigger] trim_end(v)[i] == v[i],
        forall|i: int| trim_end(v).len() <= i < v.len() ==> is_space(#[trigger] v[i]),
    decreases v.len(),
{
    if v.len() > 0 && is_space(v.last()) {
        let t = v.drop_last();
        trim_end_prefix(t);
        assert forall|i: int| trim_end(v).len() <= i < v.len() implies is_space(
            #[trigger] v[i],
        ) by {
            if i < t.len() {
                assert(t[i] == v[i]);
            }
        }
    }
}

/// Setting a variable twice is setting it to the second value.
pub proof fn last_value_counts(
    ls: Seq<Seq<char>>,
    key: Seq<char>,
    first: Seq<char>,
    second: Seq<char>,
)
    requires
        valid_name(key),
    ensures
        with_env(with_env(ls, key, first), key, second) == with_env(ls, key, second),
    decreases ls.len(),
{
    written_line_trims(key, escaped(first));
    let a = with_env(ls, key, first);
    if ls.len() == 0 {
        assert(a[0] == key + "="@ + escaped(first));
        assert(with_env(a, key, second) =~= with_env(ls, key, second));
    } else if sets(ls[0], key) {
        assert(a[0] == key + "="@ + escaped(first));
        assert(with_env(a, key, second) =~= with_env(ls, key, second));
    } else {
        last_value_counts(ls.drop_first(), key, first, second);
        assert(a[0] == ls[0]);
        assert(a.drop_first() =~= with_env(ls.drop_first(), key, first));
    }
}

/// Every line that does not set the variable stays as it is, where it is.
pub proof fn other_lines_stay(ls: Seq<Seq<char>>, key: Seq<char>, value: Seq<char>, i: int)
    requires
        0 <= i < ls.len(),
        !sets(ls[i], key),
    ensures
        i < with_env(ls, key, value).len(),
        with_env(ls, key, value)[i] == ls[i],
    decreases ls.len(),
{
    if !sets(ls[0], key) {
        if i > 0 {
            assert(ls.drop_first()[i - 1] == ls[i]);
            other_lines_stay(ls.drop_first(), key, value, i - 1);
        }
    }
}

/// The lines after a variable is set are lines: none holds a line feed.
proof fn with_env_lines(ls: Seq<Seq<char>>, key: Seq<char>, value: Seq<char>)
    requires
        valid_name(key),
        forall|i: int| 0 <= i < ls.len() ==> !(#[trigger] ls[i]).contains('\n'),
    ensures
        with_env(ls, key, value).len() > 0,
        forall|i: int|
            0 <= i < with_env(ls, key, value).len() ==> !(#[trigger] with_env(
                ls,
                key,
                value,
            )[i]).contains('\n'),
    decreases ls.len(),
{
    let line = key + "="@ + escaped(value);
    reveal_strlit("=");
    escaped_is_one_line(value);
    name_characters(key);
    assert(!line.contains('\n')) by {
        if line.contains('\n') {
            let k = choose|k: int| 0 <= k < line.len() && line[k] == '\n';
            if k < key.len() {
                assert(key[k] == '\n');
            } else if k > key.len() {
                assert(escaped(value)[k - key.len() - 1] == '\n');
            }
        }
    }
    if ls.len() > 0 && !sets(ls[0], key) {
        let rest = ls.drop_first();
        assert forall|i: int| 0 <= i < rest.len() implies !(#[trigger] rest[i]).contains('\n') by {
            assert(rest[i] == ls[i + 1]);
        }
        with_env_lines(rest, key, value);
        let w = with_env(ls, key, value);
        assert forall|i: int| 0 <= i < w.len() implies !(#[trigger] w[i]).contains('\n') by {
            if i > 0 {
                assert(w[i] == with_env(rest, key, value)[i - 1]);
            }
        }
    }
}

/// What was written is read back: the file holds the old lines with the variable
/// set, so that it lists what they list. A line that ends in a carriage return
/// would lose it.
pub proof fn set_env_reads_back(content: Seq<char>, key: Seq<char>, value: Seq<char>)
    requires
        valid_name(key),
        forall|i: int|
            0 <= i < with_env(lines(content), key, value).len() ==> ({
                let line = #[trigger] with_env(lines(content), key, value)[i];
                line.len() == 0 || line.last() != '\r'
            }),
    ensures
        lines(env_after(content, key, value)) == with_env(lines(content), key, value),
        env_items(lines(env_after(content, key, value))) == env_items(
            with_env(lines(content), key, value),
        ),
{
    lines_are_lines(content);
    with_env_lines(lines(content), key, value);
    joined_lines_read_back(with_env(lines(content), key, value));
}

/// The text that escaped characters stand for.
pub open spec fn decoded(s: Seq<char>) -> Seq<char>
    decreases s.len(),
{
    if s.len() == 0 {
        s
    } else if s[0] == '\\' && s.len() > 1 {
        seq![
            if s[1] == 'n' {
                '\n'
            } else {
                s[1]
            },
        ] + decoded(s.subrange(2, s.len() as int))
    } else {
        seq![s[0]] + decoded(s.drop_first())
    }
}

/// The value that a written one stands for: between quotes it is escaped.
pub open spec fn unescaped(s: Seq<char>) -> Seq<char> {
    if s.len() >= 2 && s[0] == '"' && s.last() == '"' {
        decoded(s.subrange(1, s.len() - 1))
    } else {
        s
    }
}

/// A text with its characters escaped.
spec fn all_escaped(v: Seq<char>) -> Seq<char> {
    replace_with(
        replace_with(replace_with(v, '\\', "\\\\"@), '"', "\\\""@),
        '\n',
        "\\n"@,
    )
}

/// Replacing can be done piece by piece.
proof fn replaced_in_pieces(a: Seq<char>, b: Seq<char>, from: char, to: Seq<char>)
    ensures
        replace_with(a + b, from, to) == replace_with(a, from, to) + replace_with(b, from, to),
    decreases b.len(),
{
    if b.len() == 0 {
        assert(a + b =~= a);
        assert(replace_with(a, from, to) + replace_with(b, from, to) =~= replace_with(a, from, to));
    } else {
        assert((a + b).drop_last() =~= a + b.drop_last());
        replaced_in_pieces(a, b.drop_last(), from, to);
        let last = if b.last() == from {
            to
        } else {
            seq![b.last()]
        };
        assert(replace_with(a, from, to) + (replace_with(b.drop_last(), from, to) + last)
            =~= replace_with(a, from, to) + replace_with(b.drop_last(), from, to) + last);
    }
}

/// Replacing in a single character.
proof fn replaced_character(c: char, from: char, to: Seq<char>)
    ensures
        replace_with(seq![c], from, to) == if c == from {
            to
        } else {
            seq![c]
        },
{
    let s = seq![c];
    assert(s.drop_last() =~= Seq::empty());
    assert(replace_with(s.drop_last(), from, to) =~= Seq::empty());
    assert(Seq::<char>::empty() + to =~= to);
    assert(Seq::<char>::empty() + s =~= s);
}

/// Two characters are left alone where neither is replaced.
proof fn pair_stays(a: char, b: char, from: char, to: Seq<char>)
    requires
        a != from,
        b != from,
    ensures
        replace_with(seq![a, b], from, to) == seq![a, b],
{
    replaced_in_pieces(seq![a], seq![b], from, to);
    replaced_character(a, from, to);
    replaced_character(b, from, to);
    assert(seq![a] + seq![b] =~= seq![a, b]);
}

/// How a single character is escaped.
proof fn escaped_character(c: char)
    ensures
        all_escaped(seq![c]) == if c == '\\' {
            seq!['\\', '\\']
        } else if c == '"' {
            seq!['\\', '"']
        } else if c == '\n' {
            seq!['\\', 'n']
        } else {
            seq![c]
        },
{
    reveal_strlit("\\\\");
    reveal_strlit("\\\"");
    reveal_strlit("\\n");
    assert("\\\\"@ =~= seq!['\\', '\\']);
    assert("\\\""@ =~= seq!['\\', '"']);
    assert("\\n"@ =~= seq!['\\', 'n']);
    replaced_character(c, '\\', "\\\\"@);
    replaced_character(c, '"', "\\\""@);
    replaced_character(c, '\n', "\\n"@);
    pair_stays('\\', '\\', '"', "\\\""@);
    pair_stays('\\', '\\', '\n', "\\n"@);
    pair_stays('\\', '"', '\n', "\\n"@);
}

/// Escaped characters are decoded to what they were.
proof fn decoding_undoes_escaping(v: Seq<char>)
    ensures
        decoded(all_escaped(v)) == v,
    decreases v.len(),
{
    if v.len() == 0 {
        assert(all_escaped(v) =~= Seq::empty());
        assert(decoded(all_escaped(v)) =~= v);
    } else {
        let c = v[0];
        let rest = v.drop_first();
        let one = seq![c];
        assert(v =~= one + rest);
        let (a1, b1) = (
            replace_with(one, '\\', "\\\\"@),
            replace_with(rest, '\\', "\\\\"@),
        );
        replaced_in_pieces(one, rest, '\\', "\\\\"@);
        let (a2, b2) = (replace_with(a1, '"', "\\\""@), replace_with(b1, '"', "\\\""@));
        replaced_in_pieces(a1, b1, '"', "\\\""@);
        replaced_in_pieces(a2, b2, '\n', "\\n"@);
        assert(all_escaped(v) == all_escaped(one) + all_escaped(rest));
        escaped_character(c);
        decoding_undoes_escaping(rest);
        let e = all_escaped(v);
        if c == '\\' || c == '"' || c == '\n' {
            assert(e[0] == '\\');
            assert(e.subrange(2, e.len() as int) =~= all_escaped(rest));
        } else {
            assert(e[0] == c);
            assert(e.drop_first() =~= all_escaped(rest));
        }
        assert(decoded(e) =~= v);
    }
}

/// Escaping loses nothing: the value can be told from what is written.
pub proof fn escaping_is_lossless(v: Seq<char>)
    ensures
        unescaped(escaped(v)) == v,
{
    let e = escaped(v);
    if needs_quotes(v) {
        reveal_strlit("\"");
        assert(e.subrange(1, e.len() - 1) =~= all_escaped(v));
        decoding_undoes_escaping(v);
    } else if v.len() >= 2 && v[0] == '"' {
        assert(v.contains('"'));
    }
}

/// A name is accepted if and only if nothing is wrong with it: it has letters, digits and
/// underscores only and does not begin with a digit.
pub proof fn names_are_checked(key: Seq<char>)
    ensures
        name_problem(key) is None <==> valid_name(key),
        valid_name(key) ==> key.len() > 0 && !('0' <= key[0] <= '9') && !key.contains('=')
            && !key.contains(' ') && !key.contains('\n'),
        key.len() == 0 ==> name_problem(key) is Some,
        valid_name(key) <==> key.len() > 0 && !('0' <= key[0] <= '9') && forall|i: int|
            0 <= i < key.len() ==> 'a' <= #[trigger] key[i] <= 'z' || 'A' <= key[i] <= 'Z' || '0'
                <= key[i] <= '9' || key[i] == '_',
{
}

/// A line that sets a variable is listed under its name, and the list tells whether it has a
/// value.
pub proof fn settings_are_listed(key: Seq<char>, value: Seq<char>)
    requires
        valid_name(key),
        value.len() > 0,
        trim(key + "="@ + value) == key + "="@ + value,
        trim(value) == value,
        trim(key) == key,
    ensures
        env_item(key + "="@ + value) == Some(EnvItemView { key, has_value: true }),
{
    let line = key + "="@ + value;
    reveal_strlit("=");
    assert("="@ =~= seq!['=']);
    assert(line[key.len() as int] == '=');
    assert forall|i: int| 0 <= i < key.len() implies line[i] != '=' by {
        assert(line[i] == key[i]);
    }
    index_of_first(line, '=');
    assert(line.subrange(0, key.len() as int) =~= key);
    assert(line.subrange((key.len() + 1) as int, line.len() as int) =~= value);
    assert(line[0] == key[0]);
}

/// The settings of a file are those of its lines, in their order.
pub proof fn lines_are_listed(ls: Seq<Seq<char>>, line: Seq<char>)
    ensures
        env_item(line) is Some ==> env_items(ls.push(line)) == env_items(ls).push(
            env_item(line)->0,
        ),
        env_item(line) is None ==> env_items(ls.push(line)) == env_items(ls),
        env_items(Seq::empty()).len() == 0,
{
    assert(ls.push(line).drop_last() =~= ls);
}

} // verus!
