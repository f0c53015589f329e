use vstd::prelude::*;

use crate::error::{Erro, PasswdError};
use crate::text::{
    chars_of, decimal, decimal_of, parse_usize, parse_usize_spec, split_char, split_on, str_eq,
    string_of,
};

verus! {

/// One line of the passwd table, as plain values.
pub struct EntryView {
    pub user: Seq<char>,
    pub password: Seq<char>,
    pub user_id: usize,
    pub group_id: usize,
    pub comment: Seq<char>,
    pub home: Seq<char>,
    pub program: Seq<char>,
}

/// One line of the passwd table.
#[derive(Clone, Debug, PartialEq, Eq)]
pub struct PasswdEntry {
    pub user: String,
    pub password: String,
    pub user_id: usize,
    pub group_id: usize,
    pub comment: String,
    pub home: String,
    pub program: String,
}

impl View for PasswdEntry {
    type V = EntryView;

    open spec fn view(&self) -> EntryView {
        EntryView {
            user: self.user@,
            password: self.password@,
            user_id: self.user_id,
            group_id: self.group_id,
            comment: self.comment@,
            home: self.home@,
            program: self.program@,
        }
    }
}

/// The seven fields joined by colons.
pub open spec fn entry_line(e: EntryView) -> Seq<char> {
    e.user + seq![':'] + e.password + seq![':'] + decimal(e.user_id as nat) + seq![':'] + decimal(
        e.group_id as nat,
    ) + seq![':'] + e.comment + seq![':'] + e.home + seq![':'] + e.program
}

/// A line read as an entry: the first seven colon-separated fields, the
/// third and fourth being numbers; further fields are ignored.
pub open spec fn entry_of(line: Seq<char>) -> Result<EntryView, Erro> {
    let f = split_char(line, ':');
    if f.len() < 7 {
        Err(Erro::Passwd(PasswdError::FieldMissing))
    } else {
        match (parse_usize_spec(f[2]), parse_usize_spec(f[3])) {
            (Some(uid), Some(gid)) => Ok(
                EntryView {
                    user: f[0],
                    password: f[1],
                    user_id: uid,
                    group_id: gid,
                    comment: f[4],
                    home: f[5],
                    program: f[6],
                },
            ),
            _ => Err(Erro::ParseInt),
        }
    }
}

/// The non-empty lines read as entries; the first failing line's error.
pub open spec fn entries_of(lines: Seq<Seq<char>>) -> Result<Seq<EntryView>, Erro>
    decreases lines.len(),
{
    if lines.len() == 0 {
        Ok(Seq::empty())
    } else {
        match entries_of(lines.drop_last()) {
            Err(e) => Err(e),
            Ok(v) => if lines.last().len() == 0 {
                Ok(v)
            } else {
                match entry_of(lines.last()) {
                    Err(e) => Err(e),
                    Ok(x) => Ok(v.push(x)),
                }
            },
        }
    }
}

/// The entries' lines joined by newlines.
pub open spec fn joined_lines(es: Seq<EntryView>) -> Seq<char>
    decreases es.len(),
{
    if es.len() == 0 {
        Seq::empty()
    } else if es.len() == 1 {
        entry_line(es[0])
    } else {
        joined_lines(es.drop_last()) + seq!['\n'] + entry_line(es.last())
    }
}

/// Once a prefix of the lines fails, every longer prefix fails the same way.
proof fn lemma_entries_error_stays(ls: Seq<Seq<char>>, j: int, m: int)
    requires
        0 <= j <= m <= ls.len(),
        entries_of(ls.subrange(0, j)) is Err,
    ensures
        entries_of(ls.subrange(0, m)) == entries_of(ls.subrange(0, j)),
    decreases m - j,
{
    if m > j {
        lemma_entries_error_stays(ls, j, m - 1);
        assert(ls.subrange(0, m).drop_last() =~= ls.subrange(0, m - 1));
    }
}

pub open spec fn entries_view(v: Seq<PasswdEntry>) -> Seq<EntryView> {
    v.map_values(|e: PasswdEntry| e@)
}

fn append_str(v: &mut Vec<char>, s: &str)
    ensures
        final(v)@ == old(v)@ + s@,
{
    let c = chars_of(s);
    let mut i: usize = 0;
    let ghost start = v@;
    while i < c.len()
        invariant
            i <= c@.len(),
            c@ == s@,
            v@ == start + c@.subrange(0, i as int),
        decreases c@.len() - i,
    {
        v.push(c[i]);
        assert(c@.subrange(0, i + 1) == c@.subrange(0, i as int).push(c@[i as int]));
        i = i + 1;
    }
    assert(c@.subrange(0, c@.len() as int) == c@);
}

fn append_chars(v: &mut Vec<char>, s: &Vec<char>)
    ensures
        final(v)@ == old(v)@ + s@,
{
    let mut i: usize = 0;
    let ghost start = v@;
    while i < s.len()
        invariant
            i <= s@.len(),
            v@ == start + s@.subrange(0, i as int),
        decreases s@.len() - i,
    {
        v.push(s[i]);
        assert(s@.subrange(0, i + 1) == s@.subrange(0, i as int).push(s@[i as int]));
        i = i + 1;
    }
    assert(s@.subrange(0, s@.len() as int) == s@);
}

impl PasswdEntry {
    fn line_chars(&self) -> (r: Vec<char>)
        ensures
            r@ == entry_line(self@),
    {
        let mut v: Vec<char> = Vec::new();
        append_str(&mut v, self.user.as_str());
        v.push(':');
        append_str(&mut v, self.password.as_str());
        v.push(':');
        append_chars(&mut v, &decimal_of(self.user_id));
        v.push(':');
        append_chars(&mut v, &decimal_of(self.group_id));
        v.push(':');
        append_str(&mut v, self.comment.as_str());
        v.push(':');
        append_str(&mut v, self.home.as_str());
        v.push(':');
        append_str(&mut v, self.program.as_str());
        assert(v@ =~= entry_line(self@));
        v
    }

    /// The entry as one line of the table.
    pub fn to_string(&self) -> (r: String)
        ensures
            r@ == entry_line(self@),
    {
        let v = self.line_chars();
        string_of(v.as_slice())
    }

    /// Reads one line of the table.
    pub fn try_from(value: &str) -> (r: Result<PasswdEntry, Erro>)
        ensures
            match entry_of(value@) {
                Ok(e) => r matches Ok(x) && x@ == e,
                Err(e) => r == Err::<PasswdEntry, Erro>(e),
            },
    {
        let c = chars_of(value);
        let parts = split_on(c.as_slice(), ':');
        if parts.len() < 7 {
            return Err(Erro::Passwd(PasswdError::FieldMissing));
        }
        let uid = parse_usize(parts[2].as_slice());
        let gid = parse_usize(parts[3].as_slice());
        match (uid, gid) {
            (Some(user_id), Some(group_id)) => Ok(
                PasswdEntry {
                    user: string_of(parts[0].as_slice()),
                    password: string_of(parts[1].as_slice()),
                    user_id,
                    group_id,
                    comment: string_of(parts[4].as_slice()),
                    home: string_of(parts[5].as_slice()),
                    program: string_of(parts[6].as_slice()),
                },
            ),
            _ => Err(Erro::ParseInt),
        }
    }
}

/// The passwd table.
#[derive(Debug, PartialEq, Eq)]
pub struct Passwd {
    content: Vec<PasswdEntry>,
}

impl Passwd {
    pub closed spec fn entries(&self) -> Seq<PasswdEntry> {
        self.content@
    }

    pub fn new(content: Vec<PasswdEntry>) -> (r: Passwd)
        ensures
            r.entries() == content@,
    {
        Passwd { content }
    }

    /// Reads every non-empty line; fails with the first line that fails.
    pub fn parse(content: &str) -> (r: Result<Passwd, Erro>)
        ensures
            match entries_of(split_char(content@, '\n')) {
                Ok(es) => r matches Ok(p) && entries_view(p.entries()) == es,
                Err(e) => r == Err::<Passwd, Erro>(e),
            },
    {
        let c = chars_of(content);
        let lines = split_on(c.as_slice(), '\n');
        let ghost ls = split_char(content@, '\n');
        let mut entries: Vec<PasswdEntry> = Vec::new();
        let mut i: usize = 0;
        assert(ls.subrange(0, 0) =~= Seq::<Seq<char>>::empty());
        assert(entries_view(entries@) =~= Seq::<EntryView>::empty());
        while i < lines.len()
            invariant
                i <= lines@.len(),
                ls == split_char(content@, '\n'),
                lines@.len() == ls.len(),
                forall|k: int| 0 <= k < lines@.len() ==> lines@[k]@ == ls[k],
                entries_of(ls.subrange(0, i as int)) == Ok::<Seq<EntryView>, Erro>(
                    entries_view(entries@),
                ),
            decreases lines@.len() - i,
        {
            proof {
                assert(ls.subrange(0, i + 1).drop_last() =~= ls.subrange(0, i as int));
                assert(ls.subrange(0, i + 1).last() == lines@[i as int]@);
            }
            if lines[i].len() > 0 {
                let line = string_of(lines[i].as_slice());
                match PasswdEntry::try_from(line.as_str()) {
                    Ok(e) => {
                        let ghost before = entries@;
                        entries.push(e);
                        assert(entries_view(entries@) =~= entries_view(before).push(e@));
                    },
                    Err(err) => {
                        proof {
                            assert(line@ == ls[i as int]);
                            assert(entry_of(line@) == Err::<EntryView, Erro>(err));
                            assert(ls.subrange(0, i + 1).last().len() > 0);
                            assert(entries_of(ls.subrange(0, i + 1)) == Err::<Seq<EntryView>, Erro>(err));
                            lemma_entries_error_stays(ls, i + 1, ls.len() as int);
                            assert(ls.subrange(0, ls.len() as int) =~= ls);
                        }
                        return Err(err);
                    },
                }
            }
            i = i + 1;
        }
        assert(ls.subrange(0, lines@.len() as int) =~= ls);
        Ok(Passwd { content: entries })
    }

    pub fn content(&self) -> (r: &[PasswdEntry])
        ensures
            r@ == self.entries(),
    {
        self.content.as_slice()
    }

    /// The table as text: one line per entry, each ended by a newline.
    pub fn content_string(&self) -> (r: String)
        ensures
            r@ == joined_lines(entries_view(self.entries())) + seq!['\n'],
    {
        let mut v: Vec<char> = Vec::new();
        let mut i: usize = 0;
        while i < self.content.len()
            invariant
                i <= self.content@.len(),
                v@ == joined_lines(entries_view(self.content@.subrange(0, i as int))),
            decreases self.content@.len() - i,
        {
            let ghost before = entries_view(self.content@.subrange(0, i as int));
            if i > 0 {
                v.push('\n');
            }
            let line = self.content[i].line_chars();
            append_chars(&mut v, &line);
            proof {
                let after = entries_view(self.content@.subrange(0, i + 1));
                assert(after.drop_last() =~= before);
                assert(after.last() == self.content@[i as int]@);
                if i == 0 {
                    assert(after.len() == 1);
                }
            }
            i = i + 1;
        }
        assert(self.content@.subrange(0, self.content@.len() as int) =~= self.content@);
        v.push('\n');
        string_of(v.as_slice())
    }

    /// Appends `entry` unless its user is already present.
    pub fn add_user(&mut self, entry: PasswdEntry) -> (r: Result<(), PasswdError>)
        ensures
            (exists|i: int|
                0 <= i < old(self).entries().len() && (#[trigger] old(self).entries()[i]).user@
                    == entry.user@) ==> (r matches Err(PasswdError::UserAlreadyExist(u)) && u@
                == entry.user@ && final(self).entries() == old(self).entries()),
            (forall|i: int|
                0 <= i < old(self).entries().len() ==> (#[trigger] old(self).entries()[i]).user@
                    != entry.user@) ==> r is Ok && final(self).entries() == old(
                self,
            ).entries().push(entry),
    {
        let mut i: usize = 0;
        while i < self.content.len()
            invariant
                i <= self.content@.len(),
                self.content@ == old(self).content@,
                forall|j: int| 0 <= j < i ==> (#[trigger] self.content@[j]).user@ != entry.user@,
            decreases self.content@.len() - i,
        {
            if str_eq(self.content[i].user.as_str(), entry.user.as_str()) {
                assert((old(self).entries()[i as int]).user@ == entry.user@);
                return Err(PasswdError::UserAlreadyExist(entry.user));
            }
            i = i + 1;
        }
        self.content.push(entry);
        Ok(())
    }

    /// Removes every entry of `username`; fails if there was none.
    pub fn remove_user(&mut self, username: &str) -> (r: Result<(), PasswdError>)
        ensures
            final(self).entries() == old(self).entries().filter(without_user(username@)),
            (exists|i: int|
                0 <= i < old(self).entries().len() && (#[trigger] old(self).entries()[i]).user@
                    == username@) ==> r is Ok,
            (forall|i: int|
                0 <= i < old(self).entries().len() ==> (#[trigger] old(self).entries()[i]).user@
                    != username@) ==> (r matches Err(PasswdError::UserNotFound(u)) && u@
                == username@),
    {
        let ghost pred = without_user(username@);
        let mut rest: Vec<PasswdEntry> = Vec::new();
        std::mem::swap(&mut rest, &mut self.content);
        let ghost orig = rest@;
        let n = rest.len();
        let mut removed = false;
        let mut k: usize = 0;
        proof {
            reveal(Seq::filter);
            assert(orig.subrange(0, 0).filter(pred) == Seq::<PasswdEntry>::empty());
        }
        while rest.len() > 0
            invariant
                n == orig.len(),
                k + rest@.len() == orig.len(),
                rest@ == orig.subrange(k as int, orig.len() as int),
                self.content@ == orig.subrange(0, k as int).filter(pred),
                pred == without_user(username@),
                orig == old(self).content@,
                removed == (exists|j: int| 0 <= j < k && (#[trigger] orig[j]).user@ == username@),
            decreases rest@.len(),
        {
            let e = rest.remove(0);
            proof {
                reveal(Seq::filter);
                assert(orig.subrange(0, k + 1).drop_last() == orig.subrange(0, k as int));
                assert(orig.subrange(0, k + 1).last() == e);
            }
            if str_eq(e.user.as_str(), username) {
                removed = true;
            } else {
                self.content.push(e);
            }
            k = k + 1;
        }
        proof {
            assert(orig.subrange(0, orig.len() as int) == orig);
        }
        if removed {
            proof {
                let j = choose|j: int| 0 <= j < k && (#[trigger] orig[j]).user@ == username@;
                assert(old(self).entries()[j].user@ == username@);
            }
            Ok(())
        } else {
            Err(PasswdError::UserNotFound(username.to_string()))
        }
    }
}

/// What a write to the passwd file asks for: new entries, users to remove,
/// and whether the new entries replace the whole table.
pub struct PasswdInput {
    pub new_entries: Option<Vec<PasswdEntry>>,
    pub remove_by_username: Option<Vec<String>>,
    pub overwrite: Option<bool>,
}

/// Keeps the entries of every other user.
pub open spec fn without_user(user: Seq<char>) -> spec_fn(PasswdEntry) -> bool {
    |e: PasswdEntry| e.user@ != user
}

pub open spec fn has_user(entries: Seq<PasswdEntry>, user: Seq<char>) -> bool {
    exists|i: int| 0 <= i < entries.len() && (#[trigger] entries[i]).user@ == user
}

/// Adding `new` one by one: the table grown, or the first user that was
/// already present with the table as it stood then.
pub open spec fn add_all(entries: Seq<PasswdEntry>, new: Seq<PasswdEntry>) -> Result<Seq<PasswdEntry>, (Seq<char>, Seq<PasswdEntry>)>
    decreases new.len(),
{
    if new.len() == 0 {
        Ok(entries)
    } else {
        match add_all(entries, new.drop_last()) {
            Err(u) => Err(u),
            Ok(t) => if has_user(t, new.last().user@) {
                Err((new.last().user@, t))
            } else {
                Ok(t.push(new.last()))
            },
        }
    }
}

/// Removing the users one by one: the table shrunk, or the first user that
/// was not present with the table as it stood then.
pub open spec fn remove_all(entries: Seq<PasswdEntry>, users: Seq<Seq<char>>) -> Result<Seq<PasswdEntry>, (Seq<char>, Seq<PasswdEntry>)>
    decreases users.len(),
{
    if users.len() == 0 {
        Ok(entries)
    } else {
        match remove_all(entries, users.drop_last()) {
            Err(u) => Err(u),
            Ok(t) => if has_user(t, users.last()) {
                Ok(t.filter(without_user(users.last())))
            } else {
                Err((users.last(), t))
            },
        }
    }
}

impl PasswdInput {
    /// Whether the new entries replace the table.
    pub fn overwrites(&self) -> (r: bool)
        ensures
            r == (self.overwrite == Some(true)),
    {
        self.overwrite == Some(true)
    }

    /// The table text when the new entries replace it.
    pub fn overwrite_content(self) -> (r: Result<String, Erro>)
        ensures
            match self.new_entries {
                Some(v) => r matches Ok(s) && s@ == joined_lines(entries_view(v@)) + seq!['\n'],
                None => r == Err::<String, Erro>(Erro::Passwd(PasswdError::NoNewEntries)),
            },
    {
        match self.new_entries {
            Some(v) => Ok(Passwd::new(v).content_string()),
            None => Err(Erro::Passwd(PasswdError::NoNewEntries)),
        }
    }
}

impl Passwd {
    /// Merges a write into the table: first every new entry is added, then
    /// every listed user removed. The first refused step is the error; the
    /// table then stays as the steps before it left it.
    pub fn apply(&mut self, input: PasswdInput) -> (r: Result<(), PasswdError>)
        ensures
            ({
                let added = match input.new_entries {
                    Some(v) => add_all(old(self).entries(), v@),
                    None => Ok(old(self).entries()),
                };
                match added {
                    Err((u, t)) => r matches Err(PasswdError::UserAlreadyExist(x)) && x@ == u
                        && final(self).entries() == t,
                    Ok(t) => match input.remove_by_username {
                        None => r is Ok && final(self).entries() == t,
                        Some(users) => match remove_all(t, strings_of(users@)) {
                            Err((u, t3)) => r matches Err(PasswdError::UserNotFound(x)) && x@ == u
                                && final(self).entries() == t3,
                            Ok(t2) => r is Ok && final(self).entries() == t2,
                        },
                    },
                }
            }),
    {
        let ghost start = self.content@;
        if let Some(new) = input.new_entries {
            let ghost all = new@;
            let mut rest = new;
            let mut k: usize = 0;
            let n = rest.len();
            assert(all.subrange(0, 0) =~= Seq::<PasswdEntry>::empty());
            while rest.len() > 0
                invariant
                    start == old(self).content@,
                    input.new_entries matches Some(v) && v@ == all,
                    n == all.len(),
                    k + rest@.len() == all.len(),
                    rest@ == all.subrange(k as int, all.len() as int),
                    add_all(start, all.subrange(0, k as int)) == Ok::<Seq<PasswdEntry>, (Seq<char>, Seq<PasswdEntry>)>(self.content@),
                decreases rest@.len(),
            {
                let e = rest.remove(0);
                proof {
                    assert(all.subrange(0, k + 1).drop_last() =~= all.subrange(0, k as int));
                    assert(all.subrange(0, k + 1).last() == e);
                }
                let ghost eu = e.user@;
                let ghost before = self.content@;
                match self.add_user(e) {
                    Ok(()) => {
                        proof {
                            if has_user(before, eu) {
                                let i = choose|i: int| 0 <= i < before.len() && (#[trigger] before[i]).user@ == eu;
                                assert(before[i].user@ == eu);
                            }
                        }
                    },
                    Err(err) => {
                        proof {
                            if !has_user(before, eu) {
                                assert(forall|i: int| 0 <= i < before.len() ==> (#[trigger] before[i]).user@ != eu);
                            }
                            assert(has_user(before, eu));
                            assert(add_all(start, all.subrange(0, k + 1)) == Err::<Seq<PasswdEntry>, (Seq<char>, Seq<PasswdEntry>)>((eu, before)));
                            lemma_add_error_stays(start, all, k + 1, all.len() as int);
                            assert(all.subrange(0, all.len() as int) =~= all);
                        }
                        return Err(err);
                    },
                }
                k = k + 1;
            }
            assert(all.subrange(0, all.len() as int) =~= all);
        }
        let ghost mid = self.content@;
        if let Some(users) = input.remove_by_username {
            let ghost all = strings_of(users@);
            let mut k: usize = 0;
            assert(all.subrange(0, 0) =~= Seq::<Seq<char>>::empty());
            while k < users.len()
                invariant
                    k <= users@.len(),
                    all == strings_of(users@),
                    input.remove_by_username matches Some(v) && v@ == users@,
                    match input.new_entries {
                        Some(v) => add_all(old(self).content@, v@) == Ok::<Seq<PasswdEntry>, (Seq<char>, Seq<PasswdEntry>)>(mid),
                        None => mid == old(self).content@,
                    },
                    remove_all(mid, all.subrange(0, k as int)) == Ok::<Seq<PasswdEntry>, (Seq<char>, Seq<PasswdEntry>)>(self.content@),
                decreases users@.len() - k,
            {
                proof {
                    assert(all.subrange(0, k + 1).drop_last() =~= all.subrange(0, k as int));
                    assert(all.subrange(0, k + 1).last() == users@[k as int]@);
                }
                let ghost before = self.content@;
                let ghost un = users@[k as int]@;
                match self.remove_user(users[k].as_str()) {
                    Ok(()) => {
                        proof {
                            if !has_user(before, un) {
                                assert(forall|i: int| 0 <= i < before.len() ==> (#[trigger] before[i]).user@ != un);
                            }
                        }
                    },
                    Err(err) => {
                        proof {
                            if has_user(before, un) {
                                let i = choose|i: int| 0 <= i < before.len() && (#[trigger] before[i]).user@ == un;
                                assert(before[i].user@ == un);
                            }
                            lemma_filter_keeps_all(before, without_user(un));
                            assert(self.content@ == before);
                            assert(remove_all(mid, all.subrange(0, k + 1)) == Err::<Seq<PasswdEntry>, (Seq<char>, Seq<PasswdEntry>)>((un, before)));
                            lemma_remove_error_stays(mid, all, k + 1, all.len() as int);
                            assert(all.subrange(0, all.len() as int) =~= all);
                        }
                        return Err(err);
                    },
                }
                k = k + 1;
            }
            assert(all.subrange(0, all.len() as int) =~= all);
        }
        Ok(())
    }
}

pub open spec fn strings_of(v: Seq<String>) -> Seq<Seq<char>> {
    v.map_values(|s: String| s@)
}

proof fn lemma_filter_keeps_all(s: Seq<PasswdEntry>, pred: spec_fn(PasswdEntry) -> bool)
    requires
        forall|i: int| 0 <= i < s.len() ==> pred(#[trigger] s[i]),
    ensures
        s.filter(pred) == s,
    decreases s.len(),
{
    reveal(Seq::filter);
    if s.len() > 0 {
        let init = s.drop_last();
        assert forall|i: int| 0 <= i < init.len() implies pred(#[trigger] init[i]) by {
            assert(init[i] == s[i]);
        }
        lemma_filter_keeps_all(init, pred);
        assert(pred(s[s.len() - 1]));
        assert(init.push(s.last()) == s);
    }
}

proof fn lemma_add_error_stays(start: Seq<PasswdEntry>, all: Seq<PasswdEntry>, j: int, m: int)
    requires
        0 <= j <= m <= all.len(),
        add_all(start, all.subrange(0, j)) is Err,
    ensures
        add_all(start, all.subrange(0, m)) == add_all(start, all.subrange(0, j)),
    decreases m - j,
{
    if m > j {
        lemma_add_error_stays(start, all, j, m - 1);
        assert(all.subrange(0, m).drop_last() =~= all.subrange(0, m - 1));
    }
}

proof fn lemma_remove_error_stays(start: Seq<PasswdEntry>, all: Seq<Seq<char>>, j: int, m: int)
    requires
        0 <= j <= m <= all.len(),
        remove_all(start, all.subrange(0, j)) is Err,
    ensures
        remove_all(start, all.subrange(0, m)) == remove_all(start, all.subrange(0, j)),
    decreases m - j,
{
    if m > j {
        lemma_remove_error_stays(start, all, j, m - 1);
        assert(all.subrange(0, m).drop_last() =~= all.subrange(0, m - 1));
    }
}

} // verus!
