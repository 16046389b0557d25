//! Saved games: how a save is named, and how coordinates are written as the
//! keys of the persisted document and read back.
use crate::model::Pos;
use crate::order::{lemma_insert_at, sort_by_rank, Ranked};
use crate::text::{
    chars_end_with, chars_of, decimal, decimal_string, ends_with, find_first, first_index, join2,
    join3, lemma_decimal_round_trip, lemma_first_index, owned, parse_i32_chars, parsed_i32,
    slice_chars, views,
};
use vstd::prelude::*;

verus! {

/// The directory in which saves are kept.
pub const SAVE_DIR: &'static str = "saves";

/// What every save's file name ends in.
pub const SAVE_SUFFIX: &'static str = ".json";

/// Names and places saves.
#[derive(Debug, Clone)]
pub struct SaveManager {
    pub save_dir: String,
}

/// The file name of the save called `name`: the name itself where it ends in
/// the suffix of saves, and the name with the suffix otherwise.
pub open spec fn save_file_name(name: Seq<char>) -> Seq<char> {
    if ends_with(name, SAVE_SUFFIX@) {
        name
    } else {
        name + SAVE_SUFFIX@
    }
}

impl SaveManager {
    /// A manager of the saves in the save directory.
    pub fn new() -> (r: SaveManager)
        ensures
            r.save_dir@ == SAVE_DIR@,
    {
        SaveManager { save_dir: owned(SAVE_DIR) }
    }

    /// The file name under which a new save called `name` is written.
    pub fn create_new_save(&self, name: &str) -> (r: String)
        ensures
            r@ == save_file_name(name@),
    {
        let chars = chars_of(name);
        let suffix = chars_of(SAVE_SUFFIX);
        if chars_end_with(&chars, &suffix) {
            owned(name)
        } else {
            join2(name, SAVE_SUFFIX)
        }
    }

    /// The path of the save with the file name `filename`.
    pub fn save_path(&self, filename: &str) -> (r: String)
        ensures
            r@ == self.save_dir@ + "/"@ + filename@,
    {
        join3(self.save_dir.as_str(), "/", filename)
    }
}

// ---------------------------------------------------------------------------
// The list of saves
// ---------------------------------------------------------------------------
/// A saved game as it is listed.
#[derive(Debug, Clone)]
pub struct SaveInfo {
    pub filename: String,
    pub path: String,
    /// When the save was last written, in seconds since the epoch.
    pub modified: i64,
}

pub struct SaveInfoView {
    pub filename: Seq<char>,
    pub path: Seq<char>,
    pub modified: i64,
}

impl View for SaveInfo {
    type V = SaveInfoView;

    open spec fn view(&self) -> SaveInfoView {
        SaveInfoView { filename: self.filename@, path: self.path@, modified: self.modified }
    }
}

impl Ranked for SaveInfoView {
    open spec fn rank(&self) -> int {
        self.modified as int
    }
}

/// Whether a file name is that of a save: something, and then the suffix of
/// saves.
pub open spec fn is_save_name(name: Seq<char>) -> bool {
    name.len() > SAVE_SUFFIX@.len() && ends_with(name, SAVE_SUFFIX@)
}

/// The files among `entries` that are saves, in the order of `entries`.
pub open spec fn save_files(entries: Seq<SaveInfoView>) -> Seq<SaveInfoView>
    decreases entries.len(),
{
    if entries.len() == 0 {
        entries
    } else if is_save_name(entries.last().filename) {
        save_files(entries.drop_last()).push(entries.last())
    } else {
        save_files(entries.drop_last())
    }
}

/// The saves among `entries` as they are listed: the newest first, those of
/// one age in the order in which they were found.
pub open spec fn listed_saves(entries: Seq<SaveInfoView>) -> Seq<SaveInfoView> {
    sort_by_rank(save_files(entries))
}

/// Orders saves by falling age, keeping the listed order among equals.
fn sort_saves(v: Vec<SaveInfo>) -> (r: Vec<SaveInfo>)
    ensures
        views(r@) == sort_by_rank(views(v@)),
{
    let ghost all = views(v@);
    let mut rest = v;
    let mut out: Vec<SaveInfo> = Vec::new();
    let ghost mut done: int = 0;
    proof {
        assert(all.take(0) =~= Seq::empty());
        assert(views(out@) =~= Seq::empty());
        assert(all.skip(0) =~= all);
    }
    while rest.len() > 0
        invariant
            0 <= done <= all.len(),
            views(rest@) == all.skip(done),
            views(out@) == sort_by_rank(all.take(done)),
        decreases rest.len(),
    {
        proof {
            assert(views(rest@).len() == rest@.len());
            assert(views(rest@)[0] == all[done]);
        }
        let ghost rest_before = rest@;
        let c = rest.remove(0);
        proof {
            assert(views(rest@) =~= all.skip(done + 1)) by {
                assert forall|j: int| 0 <= j < rest@.len() implies views(rest@)[j] == all.skip(
                    done + 1,
                )[j] by {
                    assert(rest@[j] == rest_before[j + 1]);
                    assert(views(rest_before)[j + 1] == all.skip(done)[j + 1]);
                }
            }
        }
        let mut k: usize = out.len();
        while k > 0 && out[k - 1].modified < c.modified
            invariant
                k <= out.len(),
                forall|j: int| k <= j < out.len() ==> views(out@)[j].rank() < c@.rank(),
            decreases k,
        {
            k -= 1;
        }
        proof {
            let sorted = views(out@);
            assert(k > 0 ==> sorted[k - 1].rank() >= c@.rank());
            lemma_insert_at(sorted, c@, k as int);
            assert(all.take(done + 1).drop_last() =~= all.take(done));
            assert(all.take(done + 1).last() == all[done]);
        }
        let ghost before = views(out@);
        out.insert(k, c);
        proof {
            assert(views(out@) =~= before.insert(k as int, c@));
            done = done + 1;
        }
    }
    proof {
        assert(all.take(done) =~= all);
    }
    out
}

impl SaveManager {
    /// The saves among the files found in the save directory, newest first.
    pub fn list_saves(&self, entries: Vec<SaveInfo>) -> (r: Vec<SaveInfo>)
        ensures
            views(r@) == listed_saves(views(entries@)),
    {
        let ghost all = views(entries@);
        let suffix = chars_of(SAVE_SUFFIX);
        let mut rest = entries;
        let mut kept: Vec<SaveInfo> = Vec::new();
        let ghost mut done: int = 0;
        proof {
            assert(all.take(0) =~= Seq::empty());
            assert(views(kept@) =~= Seq::empty());
            assert(all.skip(0) =~= all);
        }
        while rest.len() > 0
            invariant
                0 <= done <= all.len(),
                suffix@ == SAVE_SUFFIX@,
                views(rest@) == all.skip(done),
                views(kept@) == save_files(all.take(done)),
            decreases rest.len(),
        {
            proof {
                assert(views(rest@).len() == rest@.len());
                assert(views(rest@)[0] == all[done]);
            }
            let ghost rest_before = rest@;
            let ghost kept_before = views(kept@);
            let entry = rest.remove(0);
            proof {
                assert(views(rest@) =~= all.skip(done + 1)) by {
                    assert forall|j: int| 0 <= j < rest@.len() implies views(rest@)[j]
                        == all.skip(done + 1)[j] by {
                        assert(rest@[j] == rest_before[j + 1]);
                        assert(views(rest_before)[j + 1] == all.skip(done)[j + 1]);
                    }
                }
                assert(all.take(done + 1).drop_last() =~= all.take(done));
                assert(all.take(done + 1).last() == all[done]);
            }
            let name = chars_of(entry.filename.as_str());
            if name.len() > suffix.len() && chars_end_with(&name, &suffix) {
                kept.push(entry);
                proof {
                    assert(views(kept@) =~= kept_before.push(all[done]));
                }
            }
            proof {
                done = done + 1;
            }
        }
        proof {
            assert(all.take(done) =~= all);
        }
        sort_saves(kept)
    }
}

// ---------------------------------------------------------------------------
// Coordinates as keys
// ---------------------------------------------------------------------------
/// The key under which the location at `pos` stands in the persisted
/// document: the two coordinates in decimal, a comma between them.
pub open spec fn coord_key(pos: Pos) -> Seq<char> {
    decimal(pos.0 as int) + ","@ + decimal(pos.1 as int)
}

/// The coordinate that a key of the persisted document stands for, where it
/// stands for one: what is before the first comma and what is after it both
/// have to write a number.
pub open spec fn key_coord(key: Seq<char>) -> Option<Pos> {
    match first_index(key, ',') {
        Some(i) => match (
            parsed_i32(key.subrange(0, i)),
            parsed_i32(key.subrange(i + 1, key.len() as int)),
        ) {
            (Some(x), Some(y)) => Some((x, y)),
            _ => None,
        },
        None => None,
    }
}

/// Writes the key under which the location at `pos` is persisted.
pub fn write_coord_key(pos: Pos) -> (r: String)
    ensures
        r@ == coord_key(pos),
{
    let x = decimal_string(pos.0 as i128);
    let y = decimal_string(pos.1 as i128);
    join3(x.as_str(), ",", y.as_str())
}

/// Reads the coordinate that a key of the persisted document stands for.
pub fn read_coord_key(key: &str) -> (r: Option<Pos>)
    ensures
        r == key_coord(key@),
{
    let chars = chars_of(key);
    match find_first(&chars, ',') {
        Some(i) => {
            let before = slice_chars(&chars, 0, i);
            let after = slice_chars(&chars, i + 1, chars.len());
            match (parse_i32_chars(&before), parse_i32_chars(&after)) {
                (Some(x), Some(y)) => Some((x, y)),
                _ => None,
            }
        },
        None => None,
    }
}

/// A coordinate that is written as a key is read back from the key.
pub proof fn law_coord_key_round_trip(pos: Pos)
    ensures
        key_coord(coord_key(pos)) == Some(pos),
{
    reveal_strlit(",");
    let x = decimal(pos.0 as int);
    let y = decimal(pos.1 as int);
    let key = coord_key(pos);
    lemma_decimal_round_trip(pos.0);
    lemma_decimal_round_trip(pos.1);
    assert(","@.len() == 1 && ","@[0] == ',');
    assert(key.len() == x.len() + 1 + y.len());
    assert(key[x.len() as int] == ',');
    assert forall|j: int| 0 <= j < x.len() implies key[j] != ',' by {
        assert(key[j] == x[j]);
    }
    lemma_first_index(key, ',');
    assert(first_index(key, ',') == Some(x.len() as int));
    assert(key.subrange(0, x.len() as int) =~= x);
    assert(key.subrange(x.len() as int + 1, key.len() as int) =~= y);
}

} // verus!
