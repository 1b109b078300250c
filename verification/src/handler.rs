//! What a request is answered with: the liveness reply, and the reply to a
//! scrape, made from the statistics that were fetched for it.

use crate::duration::Duration;
use crate::exposition::{joined, texts, MetricKind, MetricSample};
use crate::metric::{FormatError, IntoNumMetric, Metric, RenderedMetric};
use crate::render::join;
use vstd::prelude::*;

verus! {

/// The status of a reply that carries what was asked for.
pub const STATUS_OK: u16 = 200;

/// The status of a reply to a scrape that failed.
pub const STATUS_INTERNAL_SERVER_ERROR: u16 = 500;

/// The content type of every reply.
pub const CONTENT_TYPE: &'static str = "text/text; charset=utf-8";

/// The body of the liveness reply.
pub const RUNNING: &'static str = "Running";

/// How many statistics the daemon reports, and so how many blocks a scrape
/// is answered with.
pub const STATISTICS: usize = 7;

/// The statistics of the daemon as fetched for one scrape.
#[derive(Clone, Copy, Debug, PartialEq, Eq)]
pub struct RawStatistics {
    pub uptime: Duration,
    pub playtime: Duration,
    pub artists: u32,
    pub albums: u32,
    pub songs: u32,
    pub db_playtime: Duration,
    pub db_update: i32,
}

/// A counter sample with the given name, value and description, read on
/// the instance without a name.
pub open spec fn counter(name: Seq<char>, value: int, description: Seq<char>) -> MetricSample {
    MetricSample { name, value, description, kind: MetricKind::Counter, instance: Seq::empty() }
}

impl RawStatistics {
    /// The samples that the statistics are published as, one for each
    /// field and in the order of the fields. Spans of time are published
    /// in whole seconds.
    pub open spec fn samples(self) -> Seq<MetricSample> {
        seq![
            counter("mpd_uptime"@, self.uptime.num_metric(), "The uptime of mpd"@),
            counter(
                "mpd_playtime"@,
                self.playtime.num_metric(),
                "The playtime of the current playlist"@,
            ),
            counter("mpd_artists"@, self.artists as int, "The number of artists"@),
            counter("mpd_albums"@, self.albums as int, "The number of albums"@),
            counter("mpd_songs"@, self.songs as int, "The number of songs"@),
            counter("mpd_db_playtime"@, self.db_playtime.num_metric(), "The database playtime"@),
            counter("mpd_db_update"@, self.db_update as int, "The updates of the database"@),
        ]
    }

    /// What the blocks of the samples hold whenever they are read: each
    /// block but for its timestamp and the line feed that closes it.
    pub open spec fn heads(self) -> Seq<Seq<char>> {
        Seq::new(STATISTICS as nat, |i: int| self.samples()[i].head())
    }

    /// The blocks of the samples, the one at each place read at the
    /// timestamp at that place.
    pub open spec fn blocks(self, timestamps: Seq<nat>) -> Seq<Seq<char>> {
        Seq::new(STATISTICS as nat, |i: int| self.samples()[i].block(timestamps[i]))
    }

    /// The body of a scrape: the blocks, with a line feed between each two.
    pub open spec fn exposition(self, timestamps: Seq<nat>) -> Seq<char> {
        joined(self.blocks(timestamps), "\n"@)
    }
}

/// Whether the text is the block of the sample at some reading of the
/// clock.
pub open spec fn is_block_of(text: Seq<char>, sample: MetricSample) -> bool {
    exists|timestamp: nat| timestamp <= u128::MAX && text == #[trigger] sample.block(timestamp)
}

/// Whether the text is the body of a scrape of the statistics, with each
/// block stamped by some reading of the clock.
pub open spec fn is_exposition_of(body: Seq<char>, stats: RawStatistics) -> bool {
    exists|timestamps: Seq<nat>|
        timestamps.len() == STATISTICS && (forall|i: int|
            0 <= i < STATISTICS ==> #[trigger] timestamps[i] <= u128::MAX) && body
            == #[trigger] stats.exposition(timestamps)
}

/// What can go wrong in the exporter.
#[derive(Clone, Debug, PartialEq, Eq)]
pub enum ApplicationError {
    /// A socket could not be bound or used; holds what the system said.
    Io(String),
    /// The daemon could not be reached or understood; holds what the
    /// client said.
    MpdError(String),
    /// A metric could not be rendered.
    AnyError(FormatError),
}

impl ApplicationError {
    /// The text that the error is reported with. It tells the kind of the
    /// error only.
    pub open spec fn text(self) -> Seq<char> {
        match self {
            ApplicationError::Io(_) => "IO Error: Io"@,
            ApplicationError::MpdError(_) => "MPD Error"@,
            ApplicationError::AnyError(_) => "Error"@,
        }
    }

    /// The text that the error is reported with; it is never empty.
    pub fn message(&self) -> (text: String)
        ensures
            text@ == self.text(),
            text@.len() > 0,
    {
        proof {
            reveal_strlit("IO Error: Io");
            reveal_strlit("MPD Error");
            reveal_strlit("Error");
        }
        match self {
            ApplicationError::Io(_) => "IO Error: Io".to_owned(),
            ApplicationError::MpdError(_) => "MPD Error".to_owned(),
            ApplicationError::AnyError(_) => "Error".to_owned(),
        }
    }
}

/// A reply, ready to be sent.
#[derive(Clone, Debug, PartialEq, Eq)]
pub struct Response {
    pub status: u16,
    pub content_type: String,
    pub body: String,
}

impl Response {
    /// Whether the reply has the given status and body, and the content
    /// type of every reply.
    pub open spec fn is(self, status: u16, body: Seq<char>) -> bool {
        &&& self.status == status
        &&& self.content_type@ == CONTENT_TYPE@
        &&& self.body@ == body
    }
}

/// The reply to the liveness probe. It is made without the daemon.
pub fn index() -> (r: Response)
    ensures
        r.is(STATUS_OK, RUNNING@),
{
    Response { status: STATUS_OK, content_type: CONTENT_TYPE.to_owned(), body: RUNNING.to_owned() }
}

/// What becomes of a scrape when one more rendering has come back: the
/// block joins those gathered before it, or the failure ends the scrape
/// and nothing of the blocks is kept.
pub fn gathered(blocks: Vec<String>, outcome: Result<RenderedMetric, FormatError>) -> (r: Result<
    Vec<String>,
    ApplicationError,
>)
    ensures
        match outcome {
            Ok(block) => r matches Ok(more) && texts(more@) == texts(blocks@).push(block@),
            Err(e) => r == Err::<Vec<String>, ApplicationError>(ApplicationError::AnyError(e)),
        },
{
    match outcome {
        Ok(block) => {
            let mut more = blocks;
            more.push(block.render());
            assert(texts(more@) =~= texts(blocks@).push(block@));
            Ok(more)
        },
        Err(e) => Err(ApplicationError::AnyError(e)),
    }
}

/// The body of a scrape: the blocks in order, with a line feed between
/// each two.
pub fn body_of(blocks: Vec<String>) -> (body: String)
    ensures
        body@ == joined(texts(blocks@), "\n"@),
{
    proof {
        reveal_strlit("\n");
    }
    join(blocks, "\n")
}

/// The body of the reply to a scrape, made from what fetching the
/// statistics has given.
///
/// A failure of the fetch is handed on as it is. Statistics are rendered as
/// seven blocks, each stamped when it is rendered; the first failure of the
/// clock ends the scrape, and nothing is returned of the blocks.
pub fn metrics_handler(fetched: Result<RawStatistics, ApplicationError>) -> (r: Result<
    String,
    ApplicationError,
>)
    ensures
        match fetched {
            Ok(stats) => match r {
                Ok(body) => is_exposition_of(body@, stats),
                Err(e) => e == ApplicationError::AnyError(FormatError::Timestamp),
            },
            Err(e) => r == Err::<String, ApplicationError>(e),
        },
{
    let stats = match fetched {
        Ok(stats) => stats,
        Err(e) => {
            return Err(e);
        },
    };
    let instance = String::new();
    let label = instance.as_str();
    let ghost samples = stats.samples();
    let rendered: Vec<String> = Vec::new();
    let rendered = gathered(
        rendered,
        Metric::new("mpd_uptime", stats.uptime, "The uptime of mpd", label).into_metric(),
    )?;
    assert(is_block_of(texts(rendered@)[0], samples[0]));
    let rendered = gathered(
        rendered,
        Metric::new(
            "mpd_playtime",
            stats.playtime,
            "The playtime of the current playlist",
            label,
        ).into_metric(),
    )?;
    assert(is_block_of(texts(rendered@)[1], samples[1]));
    let rendered = gathered(
        rendered,
        Metric::new("mpd_artists", stats.artists, "The number of artists", label).into_metric(),
    )?;
    assert(is_block_of(texts(rendered@)[2], samples[2]));
    let rendered = gathered(
        rendered,
        Metric::new("mpd_albums", stats.albums, "The number of albums", label).into_metric(),
    )?;
    assert(is_block_of(texts(rendered@)[3], samples[3]));
    let rendered = gathered(
        rendered,
        Metric::new("mpd_songs", stats.songs, "The number of songs", label).into_metric(),
    )?;
    assert(is_block_of(texts(rendered@)[4], samples[4]));
    let rendered = gathered(
        rendered,
        Metric::new(
            "mpd_db_playtime",
            stats.db_playtime,
            "The database playtime",
            label,
        ).into_metric(),
    )?;
    assert(is_block_of(texts(rendered@)[5], samples[5]));
    let rendered = gathered(
        rendered,
        Metric::new(
            "mpd_db_update",
            stats.db_update,
            "The updates of the database",
            label,
        ).into_metric(),
    )?;
    assert(is_block_of(texts(rendered@)[6], samples[6]));
    let ghost timestamps = Seq::new(
        STATISTICS as nat,
        |i: int|
            choose|timestamp: nat|
                timestamp <= u128::MAX && texts(rendered@)[i] == #[trigger] samples[i].block(
                    timestamp,
                ),
    );
    proof {
        assert forall|i: int| 0 <= i < STATISTICS implies #[trigger] timestamps[i] <= u128::MAX
            && texts(rendered@)[i] == samples[i].block(timestamps[i]) by {
            assert(is_block_of(texts(rendered@)[i], samples[i]));
        }
        assert(texts(rendered@) =~= stats.blocks(timestamps));
    }
    let body = body_of(rendered);
    assert(body@ == stats.exposition(timestamps));
    Ok(body)
}

/// The reply that carries the outcome of a scrape: the body with the
/// status of success, or the text of the error with the status of a
/// failure on this side. The reply to a failure is never empty.
pub fn respond(outcome: Result<String, ApplicationError>) -> (r: Response)
    ensures
        match outcome {
            Ok(body) => r.is(STATUS_OK, body@),
            Err(e) => r.is(STATUS_INTERNAL_SERVER_ERROR, e.text()) && r.body@.len() > 0,
        },
{
    match outcome {
        Ok(body) => Response { status: STATUS_OK, content_type: CONTENT_TYPE.to_owned(), body },
        Err(e) => Response {
            status: STATUS_INTERNAL_SERVER_ERROR,
            content_type: CONTENT_TYPE.to_owned(),
            body: e.message(),
        },
    }
}

/// The reply to a scrape, made from what fetching the statistics has
/// given: all seven blocks, or the text of what went wrong and nothing
/// else.
pub fn metrics(fetched: Result<RawStatistics, ApplicationError>) -> (r: Response)
    ensures
        match fetched {
            Ok(stats) => {
                ||| r.status == STATUS_OK && r.content_type@ == CONTENT_TYPE@ && is_exposition_of(
                    r.body@,
                    stats,
                )
                ||| r.is(
                    STATUS_INTERNAL_SERVER_ERROR,
                    ApplicationError::AnyError(FormatError::Timestamp).text(),
                )
            },
            Err(e) => r.is(STATUS_INTERNAL_SERVER_ERROR, e.text()),
        },
        r.status == STATUS_INTERNAL_SERVER_ERROR ==> r.body@.len() > 0,
{
    respond(metrics_handler(fetched))
}

} // verus!
