//! What holds of the exposition as a whole, proved from the definitions
//! that the contracts of the library are stated in.

use crate::duration::NANOS_PER_SEC;
use crate::exposition::{
    decimal, decimal_digits, decimal_value, digit, digit_value, digits_value, is_digit, joined,
    metric_block, stamped, MetricKind,
};
use crate::handler::{ApplicationError, RawStatistics, STATISTICS};
use vstd::prelude::*;

verus! {

/// The body of a scrape is made of exactly seven blocks, with a line feed
/// between each two. They are counters on the instance without a name,
/// they come in the order of the fields, each under its fixed name and
/// description, and each carries the number of its field: a count as it
/// is, a span of time in whole seconds.
pub proof fn lemma_exposition_is_seven_blocks(stats: RawStatistics, timestamps: Seq<nat>)
    requires
        timestamps.len() == STATISTICS,
    ensures
        stats.samples().len() == STATISTICS,
        stats.blocks(timestamps).len() == STATISTICS,
        stats.exposition(timestamps) == metric_block(
            "mpd_uptime"@,
            MetricKind::Counter,
            "The uptime of mpd"@,
            "instance"@,
            Seq::empty(),
            (stats.uptime@ / (NANOS_PER_SEC as nat)) as int,
            timestamps[0],
        ) + "\n"@ + metric_block(
            "mpd_playtime"@,
            MetricKind::Counter,
            "The playtime of the current playlist"@,
            "instance"@,
            Seq::empty(),
            (stats.playtime@ / (NANOS_PER_SEC as nat)) as int,
            timestamps[1],
        ) + "\n"@ + metric_block(
            "mpd_artists"@,
            MetricKind::Counter,
            "The number of artists"@,
            "instance"@,
            Seq::empty(),
            stats.artists as int,
            timestamps[2],
        ) + "\n"@ + metric_block(
            "mpd_albums"@,
            MetricKind::Counter,
            "The number of albums"@,
            "instance"@,
            Seq::empty(),
            stats.albums as int,
            timestamps[3],
        ) + "\n"@ + metric_block(
            "mpd_songs"@,
            MetricKind::Counter,
            "The number of songs"@,
            "instance"@,
            Seq::empty(),
            stats.songs as int,
            timestamps[4],
        ) + "\n"@ + metric_block(
            "mpd_db_playtime"@,
            MetricKind::Counter,
            "The database playtime"@,
            "instance"@,
            Seq::empty(),
            (stats.db_playtime@ / (NANOS_PER_SEC as nat)) as int,
            timestamps[5],
        ) + "\n"@ + metric_block(
            "mpd_db_update"@,
            MetricKind::Counter,
            "The updates of the database"@,
            "instance"@,
            Seq::empty(),
            stats.db_update as int,
            timestamps[6],
        ),
{
    reveal_with_fuel(joined, 8);
}

/// Two renderings of the same statistics differ in their timestamps and
/// in nothing else: each is made of the same heads, which the statistics
/// alone decide, and of the timestamps of its own readings. With the same
/// readings of the clock the two are the same text.
pub proof fn lemma_renderings_differ_only_in_timestamps(
    stats: RawStatistics,
    first: Seq<nat>,
    second: Seq<nat>,
)
    ensures
        stats.exposition(first) == stamped(stats.heads(), first),
        stats.exposition(second) == stamped(stats.heads(), second),
        (forall|i: int| 0 <= i < STATISTICS ==> first[i] == second[i]) ==> stats.exposition(first)
            == stats.exposition(second),
{
    let heads = stats.heads();
    assert(stats.blocks(first) =~= Seq::new(
        heads.len(),
        |i: int| heads[i] + decimal_digits(first[i]) + "\n"@,
    ));
    assert(stats.blocks(second) =~= Seq::new(
        heads.len(),
        |i: int| heads[i] + decimal_digits(second[i]) + "\n"@,
    ));
    if forall|i: int| 0 <= i < STATISTICS ==> first[i] == second[i] {
        assert(stats.blocks(first) =~= stats.blocks(second));
    }
}

/// The text of an error is not empty and holds no line feed, so a reply
/// that carries it holds no line of a block.
pub proof fn lemma_error_text_is_one_line(e: ApplicationError)
    ensures
        e.text().len() > 0,
        !e.text().contains('\n'),
{
    reveal_strlit("IO Error: Io");
    reveal_strlit("MPD Error");
    reveal_strlit("Error");
    let text = e.text();
    assert forall|i: int| 0 <= i < text.len() implies text[i] != '\n' by {}
}

/// A number in decimal is a row of at least one digit, and the digits
/// stand for the number: the timestamp on a sample line is the one that
/// was read.
pub proof fn lemma_decimal_digits_round_trip(n: nat)
    ensures
        decimal_digits(n).len() >= 1,
        forall|i: int| 0 <= i < decimal_digits(n).len() ==> is_digit(#[trigger] decimal_digits(n)[i]),
        digits_value(decimal_digits(n)) == n,
    decreases n,
{
    if n < 10 {
        assert(decimal_digits(n).drop_last() =~= Seq::<char>::empty());
        assert(digits_value(Seq::<char>::empty()) == 0);
        assert(digit_value(digit(n)) == n);
    } else {
        lemma_decimal_digits_round_trip(n / 10);
        let front = decimal_digits(n / 10);
        assert(decimal_digits(n).drop_last() =~= front);
        assert(digit_value(digit(n % 10)) == n % 10);
    }
}

/// The decimal text of an integer stands for that integer: the value on a
/// sample line is the one that was published, with its sign.
pub proof fn lemma_decimal_round_trip(i: int)
    ensures
        decimal_value(decimal(i)) == i,
{
    if i < 0 {
        let digits = decimal_digits((-i) as nat);
        lemma_decimal_digits_round_trip((-i) as nat);
        assert(decimal(i).skip(1) =~= digits);
    } else {
        lemma_decimal_digits_round_trip(i as nat);
        assert(is_digit(decimal_digits(i as nat)[0]));
    }
}

} // verus!
