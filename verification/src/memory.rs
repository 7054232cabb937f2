//! Memory that a sandbox may use

use crate::text;
use vstd::prelude::*;

verus! {

/// Memory that is taken into account at most: 20 GiB
pub const MAX_CONSIDERED: u64 = 21474836480;

/// Memory that is left for the rest of the system: 200 MiB
pub const KEPT_FREE: u64 = 209715200;

/// Limit if it is not known how much memory is available: 1 GiB
pub const DEFAULT_LIMIT: u64 = 1073741824;

/// The words of a line: what stands between spaces
pub open spec fn words(parts: Seq<Seq<u8>>) -> Seq<Seq<u8>>
    decreases parts.len(),
{
    if parts.len() == 0 {
        parts
    } else if parts.last().len() != 0 {
        words(parts.drop_last()).push(parts.last())
    } else {
        words(parts.drop_last())
    }
}

/// The amount that a line of `/proc/meminfo` adds to the available memory, in
/// KiB
///
/// Lines on the memory and the swap space that can still be used have one, as
/// their second word.
pub open spec fn amount(line: Seq<u8>) -> Option<u64> {
    let line_words = words(text::split_at_all(line, 32));
    if (text::utf8("MemAvailable:").is_prefix_of(line) || text::utf8("SwapFree:").is_prefix_of(
        line,
    )) && line_words.len() > 1 {
        text::parse_u64(line_words[1])
    } else {
        None
    }
}

/// All amounts that lines of `/proc/meminfo` add to the available memory
pub open spec fn amounts(lines: Seq<Seq<u8>>) -> Seq<u64>
    decreases lines.len(),
{
    if lines.len() == 0 {
        seq![]
    } else {
        match amount(lines.last()) {
            Some(kb) => amounts(lines.drop_last()).push(kb),
            None => amounts(lines.drop_last()),
        }
    }
}

/// Sum of numbers
pub open spec fn sum(numbers: Seq<u64>) -> nat
    decreases numbers.len(),
{
    if numbers.len() == 0 {
        0
    } else {
        sum(numbers.drop_last()) + numbers.last() as nat
    }
}

/// The number, or the largest one that fits into 64 bits if it does not
pub open spec fn saturated(number: nat) -> u64 {
    if number <= u64::MAX {
        number as u64
    } else {
        u64::MAX
    }
}

/// Available memory in bytes, given the lines of `/proc/meminfo`
pub open spec fn available(lines: Seq<Seq<u8>>) -> Option<u64> {
    if amounts(lines).len() == 0 {
        None
    } else {
        Some(saturated(1024 * sum(amounts(lines))))
    }
}

/// Memory that a sandbox may use, given how much is available
///
/// Of the available memory, as far as it is taken into account, some is left
/// for the rest of the system. The sandbox may use four fifths of what remains.
pub open spec fn limit_for(mem_available: u64) -> int {
    let considered: int = if mem_available <= MAX_CONSIDERED {
        mem_available as int
    } else {
        MAX_CONSIDERED as int
    };
    if considered <= KEPT_FREE {
        0
    } else {
        (considered - KEPT_FREE) * 4 / 5
    }
}

/// The amount that a line of `/proc/meminfo` adds to the available memory, in
/// KiB
fn mem_avail_kb(line: &Vec<u8>) -> (r: Option<u64>)
    ensures
        r == amount(line@),
{
    if !text::begins_with(line, "MemAvailable:".as_bytes()) && !text::begins_with(
        line,
        "SwapFree:".as_bytes(),
    ) {
        return None;
    }
    let parts = text::split(line, 32);
    let ghost all = text::contents(parts@);
    let mut found: Vec<&Vec<u8>> = Vec::new();
    assert(all.take(0) =~= Seq::<Seq<u8>>::empty());
    for i in 0..parts.len()
        invariant
            all == text::contents(parts@),
            found@.map_values(|word: &Vec<u8>| word@) == words(all.take(i as int)),
    {
        let ghost before = found@;
        proof {
            assert(all.take(i + 1).drop_last() =~= all.take(i as int));
            assert(all.take(i + 1).last() == parts@[i as int]@);
        }
        if parts[i].len() != 0 {
            found.push(&parts[i]);
            assert(found@.map_values(|word: &Vec<u8>| word@) =~= before.map_values(
                |word: &Vec<u8>| word@,
            ).push(parts@[i as int]@));
        }
    }
    assert(all.take(parts@.len() as int) =~= all);
    assert(found@.len() == words(all).len());
    if found.len() > 1 {
        assert(words(all)[1] == found@[1]@);
        text::read_u64(found[1])
    } else {
        None
    }
}

/// Try to determine how much memory is available on the system
///
/// Takes the lines of `/proc/meminfo`, if it could be opened, and returns the
/// available memory in bytes.
pub fn mem_available(meminfo: Option<&Vec<Vec<u8>>>) -> (r: Option<u64>)
    ensures
        r == match meminfo {
            Some(lines) => available(text::contents(lines@)),
            None => None,
        },
{
    let lines = match meminfo {
        Some(lines) => lines,
        None => return None,
    };
    let ghost all = text::contents(lines@);
    let mut total_avail_kb: Option<u64> = None;
    assert(all.take(0) =~= Seq::<Seq<u8>>::empty());
    for i in 0..lines.len()
        invariant
            all == text::contents(lines@),
            total_avail_kb == if amounts(all.take(i as int)).len() == 0 {
                None
            } else {
                Some(saturated(sum(amounts(all.take(i as int)))))
            },
    {
        proof {
            assert(all.take(i + 1).drop_last() =~= all.take(i as int));
            assert(all.take(i + 1).last() == lines@[i as int]@);
        }
        if let Some(kb) = mem_avail_kb(&lines[i]) {
            let ghost before = amounts(all.take(i as int));
            proof {
                assert(before.push(kb).drop_last() =~= before);
                assert(before.len() == 0 ==> sum(before) == 0);
            }
            let total: u64 = match total_avail_kb {
                Some(total) => total,
                None => 0,
            };
            total_avail_kb = Some(total.saturating_add(kb));
        }
    }
    assert(all.take(lines@.len() as int) =~= all);
    match total_avail_kb {
        Some(total) => match total.checked_mul(1024) {
            Some(bytes) => Some(bytes),
            None => Some(u64::MAX),
        },
        None => None,
    }
}

/// Calculate memory that the sandbox will be allowed to use
pub fn calculate_memory_limit(mem_available: u64) -> (r: u64)
    ensures
        r == limit_for(mem_available),
{
    // Consider max of 20 GB free RAM for use
    let mem_considered: u64 = if mem_available < MAX_CONSIDERED {
        mem_available
    } else {
        MAX_CONSIDERED
    };
    // Keep at least 200 MB free
    let mem_usable: u64 = mem_considered.saturating_sub(KEPT_FREE);

    // Allow usage of 80% of considered memory
    mem_usable * 4 / 5
}

/// Memory limit in bytes that should be applied to sandboxes
///
/// Takes what [`mem_available`] returned.
pub fn memory_limit(mem_available: Option<u64>) -> (r: u64)
    ensures
        r == match mem_available {
            Some(bytes) => limit_for(bytes),
            None => DEFAULT_LIMIT as int,
        },
        mem_available is None ==> r == 1073741824,
{
    match mem_available {
        Some(bytes) => calculate_memory_limit(bytes),
        None => DEFAULT_LIMIT,
    }
}

/// A sandbox that uses all the memory it is allowed to leaves at least 200 MiB
/// and a fifth of the rest to the system, and never gets more than four fifths
/// of 20 GiB less 200 MiB. It gets none if no more than 200 MiB are available.
pub proof fn limit_leaves_memory_free(mem_available: u64)
    ensures
        0 <= limit_for(mem_available),
        mem_available <= KEPT_FREE ==> limit_for(mem_available) == 0,
        mem_available > KEPT_FREE ==> 5 * limit_for(mem_available) <= 4 * (mem_available
            - KEPT_FREE),
        5 * limit_for(mem_available) <= 4 * (MAX_CONSIDERED - KEPT_FREE),
{
}

/// With more memory available a sandbox may not use less.
pub proof fn limit_grows_with_memory(less: u64, more: u64)
    requires
        less <= more,
    ensures
        limit_for(less) <= limit_for(more),
{
}

proof fn amounts_of_concatenation(before: Seq<Seq<u8>>, after: Seq<Seq<u8>>)
    ensures
        amounts(before + after) == amounts(before) + amounts(after),
    decreases after.len(),
{
    if after.len() == 0 {
        assert(before + after =~= before);
        assert(amounts(before) + amounts(after) =~= amounts(before));
    } else {
        amounts_of_concatenation(before, after.drop_last());
        assert((before + after).drop_last() =~= before + after.drop_last());
        assert(amounts(before + after) =~= amounts(before) + amounts(after));
    }
}

/// A line on anything else does not change how much memory is available,
/// wherever it stands.
pub proof fn other_lines_do_not_count(before: Seq<Seq<u8>>, line: Seq<u8>, after: Seq<Seq<u8>>)
    requires
        amount(line) is None,
    ensures
        available(before + seq![line] + after) == available(before + after),
{
    amounts_of_concatenation(before + seq![line], after);
    amounts_of_concatenation(before, after);
    assert((before + seq![line]).drop_last() =~= before);
}

/// Of the memory that is available, up to 20 GiB, a sandbox may use four fifths
/// of what is beyond 200 MiB, to the byte.
pub proof fn limit_is_four_fifths(mem_available: u64)
    ensures
        mem_available <= 209715200 ==> limit_for(mem_available) == 0,
        209715200 < mem_available <= 21474836480 ==> 5 * limit_for(mem_available) <= 4 * (
        mem_available - 209715200) < 5 * limit_for(mem_available) + 5,
        mem_available > 21474836480 ==> limit_for(mem_available) == 17012097024,
{
}

/// The words in a line
pub open spec fn words_of(line: Seq<u8>) -> Seq<Seq<u8>> {
    words(text::split_at_all(line, 32))
}

proof fn words_of_concatenation(before: Seq<Seq<u8>>, after: Seq<Seq<u8>>)
    ensures
        words(before + after) == words(before) + words(after),
    decreases after.len(),
{
    if after.len() == 0 {
        assert(before + after =~= before);
        assert(words(before) + words(after) =~= words(before));
    } else {
        words_of_concatenation(before, after.drop_last());
        assert((before + after).drop_last() =~= before + after.drop_last());
        assert(words(before + after) =~= words(before) + words(after));
    }
}

/// A space parts the words before it from those after it. What has no space in it
/// is one word, or none if it is empty.
pub proof fn spaces_part_words(before: Seq<u8>, after: Seq<u8>)
    ensures
        words_of(before + seq![32u8] + after) == words_of(before) + words_of(after),
        (forall|i: int| 0 <= i < before.len() ==> before[i] != 32) ==> words_of(before)
            == if before.len() == 0 {
            seq![]
        } else {
            seq![before]
        },
{
    text::split_of_concatenation(before, after, 32);
    words_of_concatenation(text::split_at_all(before, 32), text::split_at_all(after, 32));
    if forall|i: int| 0 <= i < before.len() ==> before[i] != 32 {
        text::text_without_separator_is_one_part(before, 32);
        let none = Seq::<Seq<u8>>::empty();
        assert(seq![before].drop_last() =~= none);
        assert(words(none) =~= none);
        assert(words_of(before) =~= if before.len() == 0 {
            none
        } else {
            seq![before]
        });
    }
}

proof fn lemma_leading_spaces(n: nat, line: Seq<u8>)
    ensures
        words_of(Seq::new(n, |i: int| 32u8) + line) == words_of(line),
    decreases n,
{
    let spaces = Seq::new(n, |i: int| 32u8);
    if n == 0 {
        assert(spaces + line =~= line);
    } else {
        let fewer = Seq::new((n - 1) as nat, |i: int| 32u8);
        let empty = Seq::<u8>::empty();
        lemma_leading_spaces((n - 1) as nat, line);
        assert(spaces + line =~= empty + seq![32u8] + (fewer + line));
        spaces_part_words(empty, fewer + line);
        assert(words_of(empty) + words_of(line) =~= words_of(line));
    }
}

/// The amount of a line on available memory or free swap space is the number
/// that stands behind its first word and any number of spaces, whatever follows.
pub proof fn amount_is_second_word(first: Seq<u8>, n: nat, word: Seq<u8>, rest: Seq<u8>)
    requires
        text::utf8("MemAvailable:").is_prefix_of(first) || text::utf8("SwapFree:").is_prefix_of(
            first,
        ),
        first.len() > 0,
        word.len() > 0,
        forall|i: int| 0 <= i < first.len() ==> first[i] != 32,
        forall|i: int| 0 <= i < word.len() ==> word[i] != 32,
        rest.len() == 0 || rest[0] == 32,
    ensures
        amount(first + seq![32u8] + (Seq::new(n, |i: int| 32u8) + (word + rest)))
            == text::parse_u64(word),
        amount(first + seq![32u8] + Seq::new(n, |i: int| 32u8)) is None,
{
    let spaces = Seq::new(n, |i: int| 32u8);
    let behind = spaces + (word + rest);
    let line = first + seq![32u8] + behind;
    spaces_part_words(first, behind);
    lemma_leading_spaces(n, word + rest);
    if rest.len() == 0 {
        assert(word + rest =~= word);
        spaces_part_words(word, rest);
    } else {
        assert(word + rest =~= word + seq![32u8] + rest.drop_first());
        spaces_part_words(word, rest.drop_first());
    }
    assert(words_of(word + rest)[0] == word);
    assert(words_of(line)[1] == word);
    assert(line.take(first.len() as int) =~= first);
    let alone = first + seq![32u8] + spaces;
    let empty = Seq::<u8>::empty();
    spaces_part_words(first, spaces);
    lemma_leading_spaces(n, empty);
    assert(spaces + empty =~= spaces);
    spaces_part_words(empty, empty);
    assert(words_of(alone).len() == 1);
    let mem = text::utf8("MemAvailable:");
    let swap = text::utf8("SwapFree:");
    if mem.is_prefix_of(first) {
        assert(mem =~= line.subrange(0, mem.len() as int));
    } else {
        assert(swap =~= line.subrange(0, swap.len() as int));
    }
}

/// A line that begins neither with the name of the available memory nor with that
/// of the free swap space has no amount.
pub proof fn other_lines_have_no_amount(line: Seq<u8>)
    requires
        !text::utf8("MemAvailable:").is_prefix_of(line),
        !text::utf8("SwapFree:").is_prefix_of(line),
    ensures
        amount(line) is None,
{
}

/// Each line with an amount makes 1024 bytes more available for each unit of it,
/// as far as they can be counted. Nothing is known without such a line.
pub proof fn amounts_add_up(lines: Seq<Seq<u8>>, line: Seq<u8>, kb: u64)
    requires
        amount(line) == Some(kb),
    ensures
        available(seq![]) is None,
        available(lines.push(line)) == {
            let total: int = match available(lines) {
                Some(bytes) => bytes as int,
                None => 0,
            } + 1024 * kb;
            Some(
                if total <= u64::MAX {
                    total as u64
                } else {
                    u64::MAX
                },
            )
        },
{
    let before = amounts(lines);
    assert(lines.push(line).drop_last() =~= lines);
    assert(amounts(lines.push(line)) == before.push(kb));
    assert(before.push(kb).drop_last() =~= before);
    assert(sum(before.push(kb)) == sum(before) + kb);
    assert(before.len() == 0 ==> sum(before) == 0);
}

} // verus!
