//! Reading what the update tool prints.

use crate::error::Error;
use crate::steam::{Progress, SteamGame, SteamGameView, UpdateState, UpdateStatus, UpdateStatusView};
use crate::text::number::{parse_u32, parse_u64, parse_unsigned};
use crate::text::split::{field, lines, nth_field, split_lines, split_words, views, words};
use crate::text::{
    chars_of, contains, contains_chars, has_prefix, starts_with, string_of, trim, trim_chars,
};
use vstd::prelude::*;

verus! {

/// The stage that a line of the tool's output reports: the first of the
/// status codes `0x61`, `0x81`, `0x101` and `0x11`, in this order, that the
/// line contains.
pub open spec fn update_state_of(line: Seq<char>) -> UpdateState {
    if contains(line, "0x61"@) {
        UpdateState::Downloading
    } else if contains(line, "0x81"@) {
        UpdateState::Installing
    } else if contains(line, "0x101"@) {
        UpdateState::Complete
    } else if contains(line, "0x11"@) {
        UpdateState::Starting
    } else {
        UpdateState::Unknown
    }
}

/// The two counts of a word of the form `current/total`.
pub open spec fn counts_of(word: Seq<char>) -> Option<(u64, u64)> {
    match (field(word, '/', 0), field(word, '/', 1), field(word, '/', 2)) {
        (Some(current), Some(total), None) => match (
            parse_unsigned(current, u64::MAX as nat),
            parse_unsigned(total, u64::MAX as nat),
        ) {
            (Some(c), Some(t)) => Some((c as u64, t as u64)),
            _ => None,
        },
        _ => None,
    }
}

/// The counts that a line of the tool's output reports: the line contains
/// the marker `Update:`, has three words or more, and its second word is
/// `current/total`.
pub open spec fn download_progress_of(line: Seq<char>) -> Option<(u64, u64)> {
    if contains(line, "Update:"@) && words(line).len() >= 3 {
        counts_of(words(line)[1])
    } else {
        None
    }
}

/// The event that a line of the tool's output stands for.
pub open spec fn update_status_of(line: Seq<char>) -> UpdateStatusView {
    UpdateStatusView {
        progress: match download_progress_of(line) {
            Some((current, total)) => Progress { current, total },
            None => Progress { current: 0, total: 0 },
        },
        status: line,
        state: update_state_of(line),
        error: None,
    }
}

/// What the first line that holds a verdict says: `Update needed` means that
/// an update is due, `Up to date` that none is. A line with both says that
/// one is due.
pub open spec fn update_verdict(ls: Seq<Seq<char>>) -> Option<bool>
    decreases ls.len(),
{
    if ls.len() == 0 {
        None
    } else if contains(ls[0], "Update needed"@) {
        Some(true)
    } else if contains(ls[0], "Up to date"@) {
        Some(false)
    } else {
        update_verdict(ls.drop_first())
    }
}

/// The parts of a title's record that have been read so far.
pub struct Pending {
    pub app_id: Option<u32>,
    pub name: Option<Seq<char>>,
    pub install_dir: Option<Seq<char>>,
}

/// The identifier that a field spells; 0 where it spells none.
pub open spec fn app_id_of(text: Seq<char>) -> u32 {
    match parse_unsigned(text, u32::MAX as nat) {
        Some(n) => n as u32,
        None => 0,
    }
}

/// The record after one more line: a line that begins, after white space,
/// with `AppID`, `Name` or `InstallDir` and has a colon sets that part to
/// what stands between its first colon and its second, without the white
/// space round it.
pub open spec fn absorb(p: Pending, line: Seq<char>) -> Pending {
    let l = trim(line);
    let value = match field(l, ':', 1) {
        Some(v) => Some(trim(v)),
        None => None,
    };
    if starts_with(l, "AppID"@) {
        match value {
            Some(v) => Pending { app_id: Some(app_id_of(v)), ..p },
            None => p,
        }
    } else if starts_with(l, "Name"@) {
        match value {
            Some(v) => Pending { name: Some(v), ..p },
            None => p,
        }
    } else if starts_with(l, "InstallDir"@) {
        match value {
            Some(v) => Pending { install_dir: Some(v), ..p },
            None => p,
        }
    } else {
        p
    }
}

/// The titles that the lines list, given the record begun before them. A
/// title is listed as soon as its record has all three parts, and the next
/// record starts empty.
pub open spec fn installed_from(ls: Seq<Seq<char>>, p: Pending) -> Seq<SteamGameView>
    decreases ls.len(),
{
    if ls.len() == 0 {
        Seq::empty()
    } else {
        let q = absorb(p, ls[0]);
        match (q.app_id, q.name, q.install_dir) {
            (Some(app_id), Some(name), Some(install_dir)) => seq![
                SteamGameView { app_id, name, install_dir },
            ] + installed_from(
                ls.drop_first(),
                Pending { app_id: None, name: None, install_dir: None },
            ),
            _ => installed_from(ls.drop_first(), q),
        }
    }
}

/// What a list of titles holds.
pub open spec fn game_views(games: Seq<SteamGame>) -> Seq<SteamGameView> {
    Seq::new(games.len(), |i: int| games[i]@)
}

/// The stage that a line of the tool's output reports.
pub fn parse_update_state(line: &str) -> (state: UpdateState)
    ensures
        state == update_state_of(line@),
{
    let chars = chars_of(line);
    if contains_chars(&chars, &chars_of("0x61")) {
        UpdateState::Downloading
    } else if contains_chars(&chars, &chars_of("0x81")) {
        UpdateState::Installing
    } else if contains_chars(&chars, &chars_of("0x101")) {
        UpdateState::Complete
    } else if contains_chars(&chars, &chars_of("0x11")) {
        UpdateState::Starting
    } else {
        UpdateState::Unknown
    }
}

/// The two counts of a word of the form `current/total`.
pub fn parse_counts(word: &Vec<char>) -> (r: Option<(u64, u64)>)
    ensures
        r == counts_of(word@),
{
    let first = nth_field(word, '/', 0);
    let second = nth_field(word, '/', 1);
    let third = nth_field(word, '/', 2);
    match (first, second, third) {
        (Some(current), Some(total), None) => match (parse_u64(&current), parse_u64(&total)) {
            (Some(c), Some(t)) => Some((c, t)),
            _ => None,
        },
        _ => None,
    }
}

/// The counts that a line of the tool's output reports, if it reports any.
pub fn parse_download_progress(line: &str) -> (r: Option<(u64, u64)>)
    ensures
        r == download_progress_of(line@),
{
    let chars = chars_of(line);
    if contains_chars(&chars, &chars_of("Update:")) {
        let parts = split_words(&chars);
        if parts.len() >= 3 {
            assert(views(parts@)[1] == parts@[1]@);
            return parse_counts(&parts[1]);
        }
    }
    None
}

/// The event that a line of the tool's output stands for. It always
/// succeeds: a line that reports nothing gives an event without progress
/// and with an unknown stage.
pub fn parse_update_status(line: &str) -> (r: Result<UpdateStatus, Error>)
    ensures
        r is Ok,
        r->Ok_0@ == update_status_of(line@),
        r->Ok_0.progress.total == 0 ==> r->Ok_0.progress.percent() == 0,
{
    let state = parse_update_state(line);
    let progress = match parse_download_progress(line) {
        Some((current, total)) => Progress { current, total },
        None => Progress::none(),
    };
    let chars = chars_of(line);
    Ok(UpdateStatus { progress, status: string_of(&chars), state, error: None })
}

/// Whether the tool's answer to a status query says that an update is due.
/// Without a verdict in the output the answer is an error, not a guess.
pub fn check_update_needed(output: &str) -> (r: Result<bool, Error>)
    ensures
        match update_verdict(lines(output@)) {
            Some(due) => r == Ok::<bool, Error>(due),
            None => r matches Err(Error::Unknown(m)) && m@
                == "Could not determine update status"@,
        },
{
    let chars = chars_of(output);
    let ls = split_lines(&chars);
    let needed = chars_of("Update needed");
    let current = chars_of("Up to date");
    let mut i: usize = 0;
    assert(views(ls@).skip(0) =~= views(ls@));
    while i < ls.len()
        invariant
            i <= ls.len(),
            views(ls@) == lines(output@),
            needed@ == "Update needed"@,
            current@ == "Up to date"@,
            update_verdict(views(ls@).skip(i as int)) == update_verdict(lines(output@)),
        decreases ls.len() - i,
    {
        let ghost rest = views(ls@).skip(i as int);
        assert(rest[0] == ls@[i as int]@);
        assert(rest.drop_first() =~= views(ls@).skip(i + 1));
        if contains_chars(&ls[i], &needed) {
            return Ok(true);
        }
        if contains_chars(&ls[i], &current) {
            return Ok(false);
        }
        i += 1;
    }
    assert(views(ls@).skip(i as int).len() == 0);
    Err(Error::Unknown(string_of(&chars_of("Could not determine update status"))))
}

/// The parts of a title's record that have been read so far.
pub struct Record {
    pub app_id: Option<u32>,
    pub name: Option<Vec<char>>,
    pub install_dir: Option<Vec<char>>,
}

impl View for Record {
    type V = Pending;

    open spec fn view(&self) -> Pending {
        Pending {
            app_id: self.app_id,
            name: match self.name {
                Some(n) => Some(n@),
                None => None,
            },
            install_dir: match self.install_dir {
                Some(d) => Some(d@),
                None => None,
            },
        }
    }
}

impl Record {
    /// A record with no part read.
    pub fn new() -> (r: Record)
        ensures
            r@ == (Pending { app_id: None, name: None, install_dir: None }),
    {
        Record { app_id: None, name: None, install_dir: None }
    }

    /// The record after one more line of the tool's list.
    pub fn absorb(self, line: &Vec<char>) -> (r: Record)
        ensures
            r@ == absorb(self@, line@),
    {
        let l = trim_chars(line);
        let value = match nth_field(&l, ':', 1) {
            Some(v) => Some(trim_chars(&v)),
            None => None,
        };
        if has_prefix(&l, &chars_of("AppID")) {
            match value {
                Some(v) => {
                    let app_id = match parse_u32(&v) {
                        Some(n) => n,
                        None => 0,
                    };
                    Record { app_id: Some(app_id), name: self.name, install_dir: self.install_dir }
                },
                None => self,
            }
        } else if has_prefix(&l, &chars_of("Name")) {
            match value {
                Some(v) => Record {
                    app_id: self.app_id,
                    name: Some(v),
                    install_dir: self.install_dir,
                },
                None => self,
            }
        } else if has_prefix(&l, &chars_of("InstallDir")) {
            match value {
                Some(v) => Record { app_id: self.app_id, name: self.name, install_dir: Some(v) },
                None => self,
            }
        } else {
            self
        }
    }
}

/// The titles that the tool's list of installed titles names, in order.
/// It always succeeds: lines that belong to no record are passed over.
pub fn parse_installed_games(output: &str) -> (r: Result<Vec<SteamGame>, Error>)
    ensures
        r is Ok,
        game_views(r->Ok_0@) == installed_from(
            lines(output@),
            Pending { app_id: None, name: None, install_dir: None },
        ),
{
    let chars = chars_of(output);
    let ls = split_lines(&chars);
    let mut games: Vec<SteamGame> = Vec::new();
    let mut record = Record::new();
    let mut i: usize = 0;
    assert(views(ls@).skip(0) =~= views(ls@));
    assert(game_views(games@) + installed_from(views(ls@), record@) =~= installed_from(
        views(ls@),
        record@,
    ));
    while i < ls.len()
        invariant
            i <= ls.len(),
            views(ls@) == lines(output@),
            game_views(games@) + installed_from(views(ls@).skip(i as int), record@)
                == installed_from(
                lines(output@),
                Pending { app_id: None, name: None, install_dir: None },
            ),
        decreases ls.len() - i,
    {
        let ghost rest = views(ls@).skip(i as int);
        let ghost before = game_views(games@);
        let ghost old_record = record@;
        assert(rest[0] == ls@[i as int]@);
        assert(rest.drop_first() =~= views(ls@).skip(i + 1));
        let next = record.absorb(&ls[i]);
        match (next.app_id, next.name, next.install_dir) {
            (Some(app_id), Some(name), Some(install_dir)) => {
                let game = SteamGame {
                    app_id,
                    name: string_of(&name),
                    install_dir: string_of(&install_dir),
                };
                games.push(game);
                record = Record::new();
                proof {
                    assert(game_views(games@) =~= before + seq![game@]);
                    assert(game_views(games@) + installed_from(rest.drop_first(), record@)
                        =~= before + installed_from(rest, old_record));
                }
            },
            (app_id, name, install_dir) => {
                record = Record { app_id, name, install_dir };
            },
        }
        i += 1;
    }
    assert(views(ls@).skip(i as int).len() == 0);
    assert(game_views(games@) + installed_from(views(ls@).skip(i as int), record@) =~= game_views(
        games@,
    ));
    Ok(games)
}

} // verus!
