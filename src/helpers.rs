use crate::config::{contains_string, strings_view, Config};
use crate::decimal::{decimal, lemma_decimal_injective, lemma_decimal_len, push_decimal};
use vstd::prelude::*;
use vstd::relations::injective_on;
use vstd::set_lib::{lemma_int_range, lemma_len_subset, lemma_map_size, set_int_range};

verus! {

/// The `n`-th name tried for the backup of `path` when it is rotated:
/// `<path>.old`, then `<path>.old1`, `<path>.old2`, ...
pub open spec fn backup_name(path: Seq<char>, n: nat) -> Seq<char> {
    if n == 0 {
        path + ".old"@
    } else {
        path + ".old"@ + decimal(n)
    }
}

/// A file of `size` bytes is rotated before the next write when a maximum size is
/// set and the file exceeds it.
pub open spec fn rotation_due(max_file_size: Option<u64>, size: u64) -> bool {
    match max_file_size {
        Some(max) => size > max,
        None => false,
    }
}

/// Whether the file, now `file_size` bytes long, must be rotated before the next write.
pub fn exceeds_max_file_size(config: &Config, file_size: u64) -> (r: bool)
    ensures
        r == rotation_due(config.max_file_size, file_size),
{
    match config.max_file_size {
        Some(max) => file_size > max,
        None => false,
    }
}

/// The `attempt`-th name tried for the backup of `path`.
pub fn backup_path(path: &str, attempt: u64) -> (r: String)
    ensures
        r@ == backup_name(path@, attempt as nat),
{
    let mut s = path.to_string();
    s.append(".old");
    if attempt > 0 {
        push_decimal(&mut s, attempt);
    }
    s
}

/// Backup names never coincide with each other nor with the file they back up, so
/// a rotation never overwrites a log.
pub proof fn lemma_backup_names_distinct(path: Seq<char>, n: nat, m: nat)
    ensures
        n != m ==> backup_name(path, n) != backup_name(path, m),
        backup_name(path, n) != path,
{
    reveal_strlit(".old");
    lemma_decimal_len(n);
    lemma_decimal_len(m);
    let k: int = path.len() as int + 4;
    if n != m && backup_name(path, n) == backup_name(path, m) {
        if n != 0 && m != 0 {
            assert(decimal(n) =~= backup_name(path, n).subrange(k, backup_name(path, n).len() as int));
            assert(decimal(m) =~= backup_name(path, m).subrange(k, backup_name(path, m).len() as int));
            lemma_decimal_injective(n, m);
        } else {
            assert(backup_name(path, n).len() != backup_name(path, m).len());
        }
    }
    assert(backup_name(path, n).len() > path.len());
}

/// `n` is the first attempt whose backup name of `path` is not among `names`.
pub open spec fn first_free(path: Seq<char>, names: Seq<Seq<char>>, n: nat) -> bool {
    &&& !names.contains(backup_name(path, n))
    &&& forall|m: nat| m < n ==> names.contains(#[trigger] backup_name(path, m))
}

/// Among any `k` names, one of the first `k + 1` backup names is missing.
proof fn lemma_some_backup_free(path: Seq<char>, names: Seq<Seq<char>>)
    ensures
        exists|m: nat| m <= names.len() && !names.contains(#[trigger] backup_name(path, m)),
{
    if forall|m: nat| m <= names.len() ==> names.contains(#[trigger] backup_name(path, m)) {
        lemma_all_backups_taken_impossible(path, names);
        names.lemma_cardinality_of_set();
    }
}

proof fn lemma_all_backups_taken_impossible(path: Seq<char>, names: Seq<Seq<char>>)
    requires
        forall|m: nat| m <= names.len() ==> names.contains(#[trigger] backup_name(path, m)),
    ensures
        names.len() + 1 <= names.to_set().len(),
{
    let k = names.len() as int;
    let f = |i: int| backup_name(path, i as nat);
    let x = set_int_range(0, k + 1);
    lemma_int_range(0, k + 1);
    let y = x.map(f);
    assert(injective_on(f, x)) by {
        assert forall|a: int, b: int| x.contains(a) && x.contains(b) && #[trigger] f(a) == #[trigger] f(b) implies a
            == b by {
            lemma_backup_names_distinct(path, a as nat, b as nat);
        }
    }
    lemma_map_size(x, y, f);
    assert(y.subset_of(names.to_set())) by {
        assert forall|s: Seq<char>| y.contains(s) implies names.to_set().contains(s) by {
            let i = choose|i: int| x.contains(i) && f(i) == s;
            assert(names.contains(backup_name(path, i as nat)));
        }
    }
    lemma_len_subset(y, names.to_set());
}

/// The backup name that a rotation of `path` takes, the files `existing` being
/// there already: `<path>.old`, or else `<path>.oldN` for the smallest `N` that is free.
pub fn first_free_backup(path: &str, existing: &Vec<String>) -> (r: String)
    ensures
        exists|n: nat| #[trigger] first_free(path@, strings_view(*existing), n) && r@ == backup_name(path@, n),
{
    let ghost names = strings_view(*existing);
    let mut n: usize = 0;
    loop
        invariant
            n <= existing.len(),
            names == strings_view(*existing),
            forall|m: nat| m < n ==> names.contains(#[trigger] backup_name(path@, m)),
        decreases existing.len() - n,
    {
        let candidate = backup_path(path, n as u64);
        if !contains_string(existing, &candidate) {
            assert(first_free(path@, names, n as nat));
            return candidate;
        }
        proof {
            if n == existing.len() {
                lemma_some_backup_free(path@, names);
                let m = choose|m: nat| m <= names.len() && !names.contains(#[trigger] backup_name(path@, m));
                assert(m < n || m == n);
            }
        }
        n += 1;
    }
}

/// What a file-backed driver does for one record, in order: open another file
/// (the day changed), move the active file aside and start it afresh, and append
/// the line.
pub struct WritePlan {
    pub switch_to: Option<String>,
    pub rotate: bool,
    pub line: String,
}

/// The text held by a rotating log: the backups, oldest first, and the active file.
pub struct LogFiles {
    pub backups: Seq<Seq<char>>,
    pub active: Seq<char>,
}

/// Everything the log holds, oldest first.
pub open spec fn contents(files: LogFiles) -> Seq<char> {
    files.backups.flatten() + files.active
}

/// One write of `written`, after the active file is moved aside when `rotate` says so.
pub open spec fn after_write(files: LogFiles, rotate: bool, written: Seq<char>) -> LogFiles {
    if rotate {
        LogFiles { backups: files.backups.push(files.active), active: written }
    } else {
        LogFiles { backups: files.backups, active: files.active + written }
    }
}

/// Writes one after another, each with its rotation decision.
pub open spec fn replay(files: LogFiles, writes: Seq<(bool, Seq<char>)>) -> LogFiles
    decreases writes.len(),
{
    if writes.len() == 0 {
        files
    } else {
        after_write(replay(files, writes.drop_last()), writes.last().0, writes.last().1)
    }
}

/// A write whose file is due for rotation first moves the whole active file aside
/// and then starts a fresh file with the new text alone; either way nothing
/// written before is lost or repeated.
pub proof fn lemma_write_keeps_every_byte(files: LogFiles, max_file_size: Option<u64>, size: u64, written: Seq<char>)
    ensures
        contents(after_write(files, rotation_due(max_file_size, size), written)) == contents(files) + written,
        rotation_due(max_file_size, size) ==> after_write(files, true, written).active == written
            && after_write(files, true, written).backups.last() == files.active,
{
    broadcast use Seq::lemma_flatten_push;
    assert(files.backups.push(files.active).flatten() == files.backups.flatten() + files.active);
    assert(contents(after_write(files, true, written)) =~= contents(files) + written);
    assert(contents(after_write(files, false, written)) =~= contents(files) + written);
}

/// Starting from no file, the backups and the active file together hold exactly
/// the text of all writes, in order, whatever was rotated on the way.
pub proof fn lemma_rotation_keeps_all_writes(writes: Seq<(bool, Seq<char>)>)
    ensures
        contents(replay(LogFiles { backups: Seq::empty(), active: Seq::empty() }, writes))
            == writes.map_values(|w: (bool, Seq<char>)| w.1).flatten(),
    decreases writes.len(),
{
    broadcast use Seq::lemma_flatten_push;
    let start = LogFiles { backups: Seq::empty(), active: Seq::empty() };
    if writes.len() == 0 {
        assert(contents(start) =~= Seq::<Seq<char>>::empty().flatten());
        assert(writes.map_values(|w: (bool, Seq<char>)| w.1) =~= Seq::<Seq<char>>::empty());
    } else {
        lemma_rotation_keeps_all_writes(writes.drop_last());
        let prev = replay(start, writes.drop_last());
        let w = writes.last();
        assert(contents(after_write(prev, true, w.1)) =~= contents(prev) + w.1) by {
            assert(prev.backups.push(prev.active).flatten() == prev.backups.flatten() + prev.active);
        }
        assert(contents(after_write(prev, false, w.1)) =~= contents(prev) + w.1);
        assert(writes.map_values(|w: (bool, Seq<char>)| w.1) =~= writes.drop_last().map_values(
            |w: (bool, Seq<char>)| w.1,
        ).push(w.1));
    }
}

} // verus!
