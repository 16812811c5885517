//! Incremental readers for newline-delimited JSON streams: the framing of
//! lines across chunks, the image stream with its synthetic progress, and
//! the text stream.

use vstd::prelude::*;
use crate::extract::{find_http, find_http_uri, find_image, find_image_data, first_of, non_empty};
use crate::json::{json_of_text, parse_text, string_view, Json, JsonModel};
use crate::text::{
    first_index_in_longer,
    first_index_is_first,
    first_index_of,
    split_once,
    strip_prefix,
    trim,
    trimmed,
};

verus! {

/// The lines of `text` that a line feed ends, in order and without their
/// line feeds.
pub open spec fn complete_lines(text: Seq<char>) -> Seq<Seq<char>>
    decreases text.len(),
{
    match first_index_of(text, '\n') {
        Some(i) => if 0 <= i < text.len() {
            seq![text.take(i)] + complete_lines(text.skip(i + 1))
        } else {
            seq![]
        },
        None => seq![],
    }
}

/// What follows the last line feed of `text`: the beginning of a line that
/// is not complete yet.
pub open spec fn pending_tail(text: Seq<char>) -> Seq<char>
    decreases text.len(),
{
    match first_index_of(text, '\n') {
        Some(i) => if 0 <= i < text.len() {
            pending_tail(text.skip(i + 1))
        } else {
            text
        },
        None => text,
    }
}

/// The views of a run of texts.
pub open spec fn lines_view(lines: Seq<String>) -> Seq<Seq<char>> {
    Seq::new(lines.len(), |i: int| lines[i]@)
}

/// Appends a chunk to the buffered beginning of a line and takes out the
/// lines that are now complete. The buffer keeps what follows the last line
/// feed.
pub fn split_lines(buffer: &mut String, chunk: &str) -> (lines: Vec<String>)
    ensures
        lines_view(lines@) == complete_lines(old(buffer)@ + chunk@),
        final(buffer)@ == pending_tail(old(buffer)@ + chunk@),
{
    let mut whole = buffer.clone();
    whole.append(chunk);
    let ghost text = whole@;
    let mut lines: Vec<String> = Vec::new();
    let mut rest: &str = whole.as_str();
    let mut more = true;
    assert(lines_view(lines@) + complete_lines(rest@) =~= complete_lines(text));
    while more
        invariant
            lines_view(lines@) + complete_lines(rest@) == complete_lines(text),
            pending_tail(rest@) == pending_tail(text),
            !more ==> first_index_of(rest@, '\n') is None,
        decreases rest@.len() + (if more { 1nat } else { 0nat }),
    {
        match split_once(rest, '\n') {
            Some((head, tail)) => {
                proof {
                    first_index_is_first(rest@, '\n');
                }
                let ghost before = lines_view(lines@);
                lines.push(head.to_owned());
                assert(lines_view(lines@) =~= before.push(head@));
                assert(before.push(head@) + complete_lines(tail@) =~= before + (seq![head@]
                    + complete_lines(tail@)));
                rest = tail;
            },
            None => {
                more = false;
            },
        }
    }
    assert(lines_view(lines@) =~= complete_lines(text));
    *buffer = rest.to_owned();
    lines
}

/// The reported total of the synthetic progress of an image stream.
pub const PROGRESS_TOTAL: u32 = 100;

/// Progress reported when an image stream is opened.
pub const OPENING_TICK: u32 = 1;

/// Progress reported when an image stream has closed.
pub const CLOSING_TICK: u32 = 99;

/// Progress reported when the image is in hand.
pub const FINAL_TICK: u32 = 100;

/// The image stream reader: the beginning of the line being received, the
/// image candidates seen so far, and the progress reported last.
pub struct ImageStream {
    buffer: String,
    inline: Option<String>,
    uri: Option<String>,
    progress: u32,
}

/// The state of an [`ImageStream`] as plain values.
pub struct ImageStreamModel {
    pub buffer: Seq<char>,
    pub inline: Option<Seq<char>>,
    pub uri: Option<Seq<char>>,
    pub progress: u32,
}

impl View for ImageStream {
    type V = ImageStreamModel;

    closed spec fn view(&self) -> ImageStreamModel {
        ImageStreamModel {
            buffer: self.buffer@,
            inline: string_view(self.inline),
            uri: string_view(self.uri),
            progress: self.progress,
        }
    }
}

/// A stream on which nothing has arrived.
pub open spec fn opened() -> ImageStreamModel {
    ImageStreamModel { buffer: Seq::empty(), inline: None, uri: None, progress: OPENING_TICK }
}

/// The state after a parsed fragment: inline image data in the fragment
/// replaces what was seen before, and so does a fetchable URI.
pub open spec fn observed(s: ImageStreamModel, fragment: JsonModel) -> ImageStreamModel {
    ImageStreamModel {
        inline: first_of(find_image(fragment), s.inline),
        uri: first_of(find_http(fragment), s.uri),
        ..s
    }
}

/// A line without the event-stream marker that may precede the JSON.
pub open spec fn line_payload(line: Seq<char>) -> Seq<char> {
    if "data: "@.is_prefix_of(line) {
        line.skip("data: "@.len() as int)
    } else {
        line
    }
}

/// Progress after one more line: two more, as long as it stays under 98.
pub open spec fn nudged(progress: u32) -> u32 {
    if progress < 98 {
        (progress + 2) as u32
    } else {
        progress
    }
}

/// The state after a complete line: the fragment is taken in if the line
/// parses, and the progress is nudged whether it parses or not.
pub open spec fn after_line(s: ImageStreamModel, line: Seq<char>) -> ImageStreamModel {
    let seen = match json_of_text(line_payload(line)) {
        Some(fragment) => observed(s, fragment),
        None => s,
    };
    ImageStreamModel { progress: nudged(s.progress), ..seen }
}

/// The state after a run of complete lines.
pub open spec fn after_lines(s: ImageStreamModel, lines: Seq<Seq<char>>) -> ImageStreamModel
    decreases lines.len(),
{
    if lines.len() == 0 {
        s
    } else {
        after_line(after_lines(s, lines.drop_last()), lines.last())
    }
}

/// Progress after `count` lines.
pub open spec fn progress_after(progress: u32, count: nat) -> u32
    decreases count,
{
    if count == 0 {
        progress
    } else {
        nudged(progress_after(progress, (count - 1) as nat))
    }
}

/// The progress values reported over `count` lines: one for each line that
/// moved the progress.
pub open spec fn ticks_over(progress: u32, count: nat) -> Seq<u32>
    decreases count,
{
    if count == 0 {
        seq![]
    } else {
        let before = progress_after(progress, (count - 1) as nat);
        if before < 98 {
            ticks_over(progress, (count - 1) as nat).push(nudged(before))
        } else {
            ticks_over(progress, (count - 1) as nat)
        }
    }
}

/// The state after a chunk: its complete lines are taken in, and the rest
/// waits in the buffer.
pub open spec fn after_chunk(s: ImageStreamModel, chunk: Seq<char>) -> ImageStreamModel {
    after_lines(
        ImageStreamModel { buffer: pending_tail(s.buffer + chunk), ..s },
        complete_lines(s.buffer + chunk),
    )
}

/// How an image stream ended.
#[derive(Debug)]
pub enum StreamEnd {
    /// Inline image data was captured: it is the result.
    Image { data: String },
    /// Only a URI was captured: the image has to be fetched from it.
    Fetch { uri: String },
    /// Neither was captured.
    Missing,
}

/// A [`StreamEnd`] as plain values.
pub enum StreamEndModel {
    Image { data: Seq<char> },
    Fetch { uri: Seq<char> },
    Missing,
}

impl View for StreamEnd {
    type V = StreamEndModel;

    open spec fn view(&self) -> StreamEndModel {
        match self {
            StreamEnd::Image { data } => StreamEndModel::Image { data: data@ },
            StreamEnd::Fetch { uri } => StreamEndModel::Fetch { uri: uri@ },
            StreamEnd::Missing => StreamEndModel::Missing,
        }
    }
}

/// How a stream in state `s` ends: with the inline data seen last, else
/// with the URI seen last, else with nothing.
pub open spec fn stream_end(s: ImageStreamModel) -> StreamEndModel {
    match s.inline {
        Some(data) => StreamEndModel::Image { data },
        None => match s.uri {
            Some(uri) => StreamEndModel::Fetch { uri },
            None => StreamEndModel::Missing,
        },
    }
}

impl ImageStream {
    /// Opens a stream. The caller reports [`OPENING_TICK`].
    pub fn new() -> (s: Self)
        ensures
            s@ == opened(),
    {
        ImageStream { buffer: String::new(), inline: None, uri: None, progress: OPENING_TICK }
    }

    /// The progress reported last.
    pub fn progress(&self) -> (p: u32)
        ensures
            p == self@.progress,
    {
        self.progress
    }

    /// Takes in one parsed fragment.
    pub fn observe(&mut self, fragment: &Json)
        ensures
            final(self)@ == observed(old(self)@, fragment@),
    {
        match find_image_data(fragment) {
            Some(data) => {
                self.inline = Some(data);
            },
            None => {},
        }
        match find_http_uri(fragment) {
            Some(uri) => {
                self.uri = Some(uri);
            },
            None => {},
        }
    }

    /// Takes in one complete line and gives the progress to report, if the
    /// line moved it.
    pub fn on_line(&mut self, line: &str) -> (tick: Option<u32>)
        ensures
            final(self)@ == after_line(old(self)@, line@),
            tick == if old(self)@.progress < 98 {
                Some(nudged(old(self)@.progress))
            } else {
                None
            },
    {
        let payload = match strip_prefix(line, "data: ") {
            Some(rest) => rest,
            None => line,
        };
        match parse_text(payload) {
            Some(fragment) => {
                self.observe(&fragment);
            },
            None => {},
        }
        if self.progress < 98 {
            self.progress = self.progress + 2;
            Some(self.progress)
        } else {
            None
        }
    }

    /// Takes in one chunk of the response body and gives the progress values
    /// to report, one for each line that moved the progress.
    pub fn feed(&mut self, chunk: &str) -> (ticks: Vec<u32>)
        ensures
            final(self)@ == after_chunk(old(self)@, chunk@),
            ticks@ == ticks_over(
                old(self)@.progress,
                complete_lines(old(self)@.buffer + chunk@).len(),
            ),
    {
        let lines = split_lines(&mut self.buffer, chunk);
        let ghost start = self@;
        let ghost all = lines_view(lines@);
        let mut ticks: Vec<u32> = Vec::new();
        let mut i: usize = 0;
        while i < lines.len()
            invariant
                i <= lines.len(),
                all == lines_view(lines@),
                self@ == after_lines(start, all.take(i as int)),
                self@.progress == progress_after(start.progress, i as nat),
                ticks@ == ticks_over(start.progress, i as nat),
            decreases lines.len() - i,
        {
            assert(all.take(i + 1).drop_last() =~= all.take(i as int));
            assert(all.take(i + 1).last() == lines@[i as int]@);
            match self.on_line(lines[i].as_str()) {
                Some(t) => {
                    ticks.push(t);
                },
                None => {},
            }
            i += 1;
        }
        assert(all.take(i as int) =~= all);
        ticks
    }

    /// How the stream ends, once the body has been read to its end.
    pub fn finish(&self) -> (end: StreamEnd)
        ensures
            end@ == stream_end(self@),
    {
        match &self.inline {
            Some(data) => StreamEnd::Image { data: data.clone() },
            None => match &self.uri {
                Some(uri) => StreamEnd::Fetch { uri: uri.clone() },
                None => StreamEnd::Missing,
            },
        }
    }
}

/// The progress of an image stream never falls, and stays under the total
/// for as long as lines arrive: every value reported over a run of lines is
/// above the progress before the run, at most 99, and above the value
/// reported before it.
pub proof fn ticks_rise(progress: u32, count: nat)
    ensures
        progress <= progress_after(progress, count),
        progress_after(progress, count) <= 99 || progress_after(progress, count) == progress,
        forall|i: int|
            0 <= i < ticks_over(progress, count).len() ==> progress < #[trigger] ticks_over(
                progress,
                count,
            )[i] <= progress_after(progress, count) && ticks_over(progress, count)[i] <= 99,
        forall|i: int, j: int|
            0 <= i < j < ticks_over(progress, count).len() ==> ticks_over(progress, count)[i]
                < ticks_over(progress, count)[j],
    decreases count,
{
    if count > 0 {
        let fewer = (count - 1) as nat;
        ticks_rise(progress, fewer);
        let earlier = ticks_over(progress, fewer);
        let now = ticks_over(progress, count);
        let before = progress_after(progress, fewer);
        assert forall|i: int| 0 <= i < now.len() implies progress < #[trigger] now[i]
            <= progress_after(progress, count) && now[i] <= 99 by {
            if i < earlier.len() {
                assert(now[i] == earlier[i]);
            }
        }
        assert forall|i: int, j: int| 0 <= i < j < now.len() implies now[i] < now[j] by {
            if j < earlier.len() {
                assert(now[i] == earlier[i] && now[j] == earlier[j]);
            } else {
                assert(now[i] == earlier[i]);
                assert(earlier[i] <= before);
            }
        }
    }
}

/// Of the candidates in a stream the one seen last is kept: after two
/// fragments the stream holds the inline image of the second if it has one,
/// else that of the first, else what it held before; and likewise for the
/// fetchable URIs.
pub proof fn latest_image_wins(s: ImageStreamModel, first: JsonModel, second: JsonModel)
    ensures
        observed(observed(s, first), second).inline == first_of(
            find_image(second),
            first_of(find_image(first), s.inline),
        ),
        observed(observed(s, first), second).uri == first_of(
            find_http(second),
            first_of(find_http(first), s.uri),
        ),
        find_image(second) is Some ==> stream_end(observed(observed(s, first), second)) == (
        StreamEndModel::Image { data: find_image(second)->0 }),
{
}

/// The text that one line of a text stream carries: the non-empty text
/// member `response` of the JSON value that the line parses to.
pub open spec fn response_fragment(line: Seq<char>) -> Option<Seq<char>> {
    match json_of_text(line) {
        Some(value) => non_empty(value.text_field("response"@)),
        None => None,
    }
}

/// The texts that a run of lines carries, in order.
pub open spec fn fragments_of(lines: Seq<Seq<char>>) -> Seq<Seq<char>>
    decreases lines.len(),
{
    if lines.len() == 0 {
        seq![]
    } else {
        match response_fragment(lines.last()) {
            Some(fragment) => fragments_of(lines.drop_last()).push(fragment),
            None => fragments_of(lines.drop_last()),
        }
    }
}

/// The text that the unfinished last line carries when the stream closes:
/// that of the line without the white space around it.
pub open spec fn closing_fragment(buffer: Seq<char>) -> Option<Seq<char>> {
    if trimmed(buffer).len() == 0 {
        None
    } else {
        response_fragment(trimmed(buffer))
    }
}

/// The non-empty text member `response` of a parsed line.
pub fn response_text(value: &Json) -> (r: Option<String>)
    ensures
        string_view(r) == non_empty(value@.text_field("response"@)),
{
    match value.text_field("response") {
        Some(text) => if text.is_empty() {
            None
        } else {
            Some(text.to_owned())
        },
        None => None,
    }
}

fn fragment_of_line(line: &str) -> (r: Option<String>)
    ensures
        string_view(r) == response_fragment(line@),
{
    match parse_text(line) {
        Some(value) => response_text(&value),
        None => None,
    }
}

/// The text stream reader: the beginning of the line being received.
pub struct TextStream {
    buffer: String,
}

impl View for TextStream {
    type V = Seq<char>;

    closed spec fn view(&self) -> Seq<char> {
        self.buffer@
    }
}

impl TextStream {
    /// Opens a stream on which nothing has arrived.
    pub fn new() -> (s: Self)
        ensures
            s@ == Seq::<char>::empty(),
    {
        TextStream { buffer: String::new() }
    }

    /// Takes in one chunk of the response body and gives the texts that its
    /// complete lines carry, in order.
    pub fn feed(&mut self, chunk: &str) -> (fragments: Vec<String>)
        ensures
            final(self)@ == pending_tail(old(self)@ + chunk@),
            lines_view(fragments@) == fragments_of(complete_lines(old(self)@ + chunk@)),
    {
        let lines = split_lines(&mut self.buffer, chunk);
        let ghost all = lines_view(lines@);
        let mut fragments: Vec<String> = Vec::new();
        let mut i: usize = 0;
        while i < lines.len()
            invariant
                i <= lines.len(),
                all == lines_view(lines@),
                lines_view(fragments@) == fragments_of(all.take(i as int)),
            decreases lines.len() - i,
        {
            assert(all.take(i + 1).drop_last() =~= all.take(i as int));
            assert(all.take(i + 1).last() == lines@[i as int]@);
            let ghost before = lines_view(fragments@);
            match fragment_of_line(lines[i].as_str()) {
                Some(fragment) => {
                    fragments.push(fragment);
                    assert(lines_view(fragments@) =~= before.push(fragment@));
                },
                None => {},
            }
            i += 1;
        }
        assert(all.take(i as int) =~= all);
        fragments
    }

    /// The text that the unfinished last line carries, once the body has
    /// been read to its end.
    pub fn finish(&self) -> (fragment: Option<String>)
        ensures
            string_view(fragment) == closing_fragment(self@),
    {
        let line = trim(self.buffer.as_str());
        if line.is_empty() {
            None
        } else {
            fragment_of_line(line)
        }
    }
}

/// Splitting into lines does not depend on where the text is cut: the
/// lines of two pieces put together are the lines of the first piece,
/// followed by the lines of what the first piece left unfinished put
/// together with the second.
pub proof fn lines_of_pieces(first: Seq<char>, second: Seq<char>)
    ensures
        complete_lines(first + second) == complete_lines(first) + complete_lines(
            pending_tail(first) + second,
        ),
        pending_tail(first + second) == pending_tail(pending_tail(first) + second),
    decreases first.len(),
{
    first_index_is_first(first, '\n');
    match first_index_of(first, '\n') {
        Some(i) => {
            first_index_in_longer(first, second, '\n');
            let whole = first + second;
            assert(whole.take(i) =~= first.take(i));
            assert(whole.skip(i + 1) =~= first.skip(i + 1) + second);
            lines_of_pieces(first.skip(i + 1), second);
            assert(complete_lines(whole) =~= seq![first.take(i)] + (complete_lines(
                first.skip(i + 1),
            ) + complete_lines(pending_tail(first.skip(i + 1)) + second)));
            assert(complete_lines(first + second) =~= complete_lines(first) + complete_lines(
                pending_tail(first) + second,
            ));
        },
        None => {
            assert(complete_lines(first) + complete_lines(first + second) =~= complete_lines(
                first + second,
            ));
        },
    }
}

/// Lines taken in one after the other, in two runs, leave the same state as
/// taken in as one run.
pub proof fn lines_in_two_runs(s: ImageStreamModel, first: Seq<Seq<char>>, second: Seq<Seq<char>>)
    ensures
        after_lines(s, first + second) == after_lines(after_lines(s, first), second),
    decreases second.len(),
{
    if second.len() == 0 {
        assert(first + second =~= first);
    } else {
        assert((first + second).drop_last() =~= first + second.drop_last());
        assert((first + second).last() == second.last());
        lines_in_two_runs(s, first, second.drop_last());
    }
}

/// Taking in lines touches the buffer in no way, and the progress by their
/// number alone.
pub proof fn lines_leave_buffer(s: ImageStreamModel, buffer: Seq<char>, lines: Seq<Seq<char>>)
    ensures
        after_lines(ImageStreamModel { buffer, ..s }, lines) == (ImageStreamModel {
            buffer,
            ..after_lines(s, lines)
        }),
        after_lines(s, lines).progress == progress_after(s.progress, lines.len()),
    decreases lines.len(),
{
    if lines.len() > 0 {
        lines_leave_buffer(s, buffer, lines.drop_last());
    }
}

/// The progress over two runs of lines is that over the first, moved on
/// over the second; and so are the values reported.
pub proof fn ticks_in_two_runs(progress: u32, first: nat, second: nat)
    ensures
        progress_after(progress, first + second) == progress_after(
            progress_after(progress, first),
            second,
        ),
        ticks_over(progress, first + second) == ticks_over(progress, first) + ticks_over(
            progress_after(progress, first),
            second,
        ),
    decreases second,
{
    if second == 0 {
        assert(ticks_over(progress, first) + ticks_over(progress_after(progress, first), 0)
            =~= ticks_over(progress, first));
    } else {
        ticks_in_two_runs(progress, first, (second - 1) as nat);
        assert((first + second - 1) as nat == first + (second - 1) as nat);
        let mid = progress_after(progress, first);
        assert(ticks_over(progress, first + second) =~= ticks_over(progress, first) + ticks_over(
            mid,
            second,
        ));
    }
}

/// How the body of a reply is cut into chunks does not matter to an image
/// stream: two chunks taken in one after the other leave the same state,
/// and report the same progress, as the two taken in as one.
pub proof fn chunking_is_immaterial(s: ImageStreamModel, first: Seq<char>, second: Seq<char>)
    ensures
        after_chunk(after_chunk(s, first), second) == after_chunk(s, first + second),
        ticks_over(s.progress, complete_lines(s.buffer + first).len()) + ticks_over(
            after_chunk(s, first).progress,
            complete_lines(after_chunk(s, first).buffer + second).len(),
        ) == ticks_over(s.progress, complete_lines(s.buffer + (first + second)).len()),
{
    let text = s.buffer + first;
    let lines1 = complete_lines(text);
    let rest1 = pending_tail(text);
    let lines2 = complete_lines(rest1 + second);
    let rest2 = pending_tail(rest1 + second);
    let s1 = after_chunk(s, first);
    lines_leave_buffer(s, rest1, lines1);
    assert(s1.buffer == rest1);
    assert(s.buffer + (first + second) =~= text + second);
    lines_of_pieces(text, second);
    lines_leave_buffer(s1, rest2, lines2);
    lines_leave_buffer(s, rest2, lines1 + lines2);
    lines_leave_buffer(s, rest2, lines1);
    lines_in_two_runs(ImageStreamModel { buffer: rest2, ..s }, lines1, lines2);
    lines_leave_buffer(ImageStreamModel { buffer: rest1, ..s }, rest2, lines1);
    assert(after_lines(ImageStreamModel { buffer: rest2, ..s1 }, lines2) == after_lines(
        after_lines(ImageStreamModel { buffer: rest2, ..s }, lines1),
        lines2,
    ));
    ticks_in_two_runs(s.progress, lines1.len(), lines2.len());
    assert((lines1 + lines2).len() == lines1.len() + lines2.len());
}

/// The texts of two runs of lines are those of the first run followed by
/// those of the second.
pub proof fn fragments_in_two_runs(first: Seq<Seq<char>>, second: Seq<Seq<char>>)
    ensures
        fragments_of(first + second) == fragments_of(first) + fragments_of(second),
    decreases second.len(),
{
    if second.len() == 0 {
        assert(first + second =~= first);
        assert(fragments_of(first) + fragments_of(second) =~= fragments_of(first));
    } else {
        assert((first + second).drop_last() =~= first + second.drop_last());
        assert((first + second).last() == second.last());
        fragments_in_two_runs(first, second.drop_last());
        assert(fragments_of(first + second) =~= fragments_of(first) + fragments_of(second));
    }
}

/// How the body of a reply is cut into chunks does not matter to a text
/// stream: two chunks taken in one after the other yield the same texts,
/// and leave the same unfinished line, as the two taken in as one.
pub proof fn text_chunking_is_immaterial(buffer: Seq<char>, first: Seq<char>, second: Seq<char>)
    ensures
        fragments_of(complete_lines(buffer + first)) + fragments_of(
            complete_lines(pending_tail(buffer + first) + second),
        ) == fragments_of(complete_lines(buffer + (first + second))),
        pending_tail(pending_tail(buffer + first) + second) == pending_tail(
            buffer + (first + second),
        ),
{
    assert(buffer + (first + second) =~= (buffer + first) + second);
    lines_of_pieces(buffer + first, second);
    fragments_in_two_runs(
        complete_lines(buffer + first),
        complete_lines(pending_tail(buffer + first) + second),
    );
}

/// Where the reading of an image stream stands.
#[derive(Debug, Clone, Copy, PartialEq, Eq)]
pub enum RunPhase {
    /// The body is being read.
    Reading,
    /// The body has been read to its end.
    Closed,
    /// The image is in hand.
    Finished,
}

/// One run of an image stream from the first progress report to the last:
/// the reader, and every progress value reported so far.
pub struct ImageRun {
    stream: ImageStream,
    sent: Vec<u32>,
    phase: RunPhase,
}

/// An [`ImageRun`] as plain values.
pub struct ImageRunModel {
    pub stream: ImageStreamModel,
    /// The progress values reported so far, in order, each against
    /// [`PROGRESS_TOTAL`].
    pub sent: Seq<u32>,
    pub phase: RunPhase,
}

impl View for ImageRun {
    type V = ImageRunModel;

    closed spec fn view(&self) -> ImageRunModel {
        ImageRunModel { stream: self.stream@, sent: self.sent@, phase: self.phase }
    }
}

/// A run that has reported its opening and read nothing yet.
pub open spec fn run_opened() -> ImageRunModel {
    ImageRunModel { stream: opened(), sent: seq![OPENING_TICK], phase: RunPhase::Reading }
}

/// The run after a chunk: while the body is read, the chunk is taken in and
/// the progress of its lines is reported; afterwards nothing changes.
pub open spec fn run_after_chunk(run: ImageRunModel, chunk: Seq<char>) -> ImageRunModel {
    if run.phase is Reading {
        ImageRunModel {
            stream: after_chunk(run.stream, chunk),
            sent: run.sent + ticks_over(
                run.stream.progress,
                complete_lines(run.stream.buffer + chunk).len(),
            ),
            ..run
        }
    } else {
        run
    }
}

/// The run after the body has ended: the closing progress is reported,
/// once.
pub open spec fn run_closed(run: ImageRunModel) -> ImageRunModel {
    if run.phase is Reading {
        ImageRunModel { sent: run.sent.push(CLOSING_TICK), phase: RunPhase::Closed, ..run }
    } else {
        run
    }
}

/// The run after the attempt has ended: where it ended with the image, the
/// final progress is reported, once, and only for a run that has been
/// closed. An attempt that failed reports nothing more.
pub open spec fn run_concluded(run: ImageRunModel, succeeded: bool) -> ImageRunModel {
    if succeeded && run.phase is Closed {
        ImageRunModel { sent: run.sent.push(FINAL_TICK), phase: RunPhase::Finished, ..run }
    } else {
        run
    }
}

/// What holds of the reports of every run: they begin with the opening
/// value and never fall; while the body is read the last is the reader's
/// progress, which is under the total; a closed run ends with the closing
/// value, and a finished one with the closing value and then the total.
pub open spec fn orderly(run: ImageRunModel) -> bool {
    &&& run.sent.len() > 0
    &&& run.sent[0] == OPENING_TICK
    &&& forall|i: int, j: int| 0 <= i < j < run.sent.len() ==> run.sent[i] <= run.sent[j]
    &&& match run.phase {
        RunPhase::Reading => run.sent.last() == run.stream.progress && run.stream.progress
            <= CLOSING_TICK,
        RunPhase::Closed => run.sent.last() == CLOSING_TICK,
        RunPhase::Finished => {
            &&& run.sent.len() >= 2
            &&& run.sent.last() == FINAL_TICK
            &&& run.sent[run.sent.len() - 2] == CLOSING_TICK
        },
    }
}

/// The values reported over a run of lines end with the progress that the
/// lines lead to; and where none is reported, the progress has not moved.
pub proof fn last_tick_is_progress(progress: u32, count: nat)
    ensures
        ticks_over(progress, count).len() > 0 ==> ticks_over(progress, count).last()
            == progress_after(progress, count),
        ticks_over(progress, count).len() == 0 ==> progress_after(progress, count) == progress,
    decreases count,
{
    if count > 0 {
        last_tick_is_progress(progress, (count - 1) as nat);
    }
}

/// A run is orderly when it is opened.
pub proof fn opened_run_is_orderly()
    ensures
        orderly(run_opened()),
{
}

/// A chunk leaves an orderly run orderly.
pub proof fn chunk_keeps_run_orderly(run: ImageRunModel, chunk: Seq<char>)
    requires
        orderly(run),
    ensures
        orderly(run_after_chunk(run, chunk)),
{
    if run.phase is Reading {
        let text = run.stream.buffer + chunk;
        let lines = complete_lines(text);
        let ticks = ticks_over(run.stream.progress, lines.len());
        let after = run_after_chunk(run, chunk);
        ticks_rise(run.stream.progress, lines.len());
        last_tick_is_progress(run.stream.progress, lines.len());
        lines_leave_buffer(run.stream, pending_tail(text), lines);
        assert(after.stream.progress == progress_after(run.stream.progress, lines.len()));
        assert forall|i: int, j: int| 0 <= i < j < after.sent.len() implies after.sent[i]
            <= after.sent[j] by {
            let n = run.sent.len() as int;
            if j < n {
            } else if i < n {
                assert(after.sent[j] == ticks[j - n]);
                assert(run.sent[i] <= run.sent[n - 1]);
            } else {
                assert(after.sent[i] == ticks[i - n]);
                assert(after.sent[j] == ticks[j - n]);
            }
        }
        if ticks.len() > 0 {
            assert(after.sent.last() == ticks.last());
        } else {
            assert(after.sent =~= run.sent);
        }
    }
}

/// Closing leaves an orderly run orderly, and so does the end of the
/// attempt.
pub proof fn end_keeps_run_orderly(run: ImageRunModel, succeeded: bool)
    requires
        orderly(run),
    ensures
        orderly(run_closed(run)),
        orderly(run_concluded(run, succeeded)),
{
    let closed = run_closed(run);
    if run.phase is Reading {
        assert forall|i: int, j: int| 0 <= i < j < closed.sent.len() implies closed.sent[i]
            <= closed.sent[j] by {
            if i < run.sent.len() {
                assert(run.sent[i] <= run.sent[run.sent.len() - 1]);
            }
        }
    }
    let done = run_concluded(run, succeeded);
    if succeeded && run.phase is Closed {
        assert forall|i: int, j: int| 0 <= i < j < done.sent.len() implies done.sent[i]
            <= done.sent[j] by {
            if i < run.sent.len() {
                assert(run.sent[i] <= run.sent[run.sent.len() - 1]);
            }
        }
        assert(done.sent[done.sent.len() - 2] == run.sent.last());
    }
}

/// The progress reports of a run, taken together: there is at least one and
/// the first is 1; every value lies between 1 and the total of 100; the
/// values never fall; and 100 is reported at most once, as the last value,
/// and exactly by a run whose attempt has ended with the image.
pub proof fn run_reports_in_order(run: ImageRunModel)
    requires
        orderly(run),
    ensures
        run.sent.len() > 0 && run.sent[0] == 1,
        forall|i: int| 0 <= i < run.sent.len() ==> 1 <= #[trigger] run.sent[i] <= PROGRESS_TOTAL,
        forall|i: int, j: int| 0 <= i < j < run.sent.len() ==> run.sent[i] <= run.sent[j],
        forall|i: int|
            0 <= i < run.sent.len() && #[trigger] run.sent[i] == FINAL_TICK ==> i == run.sent.len()
                - 1 && run.phase is Finished,
        run.phase is Finished <==> run.sent.last() == FINAL_TICK,
{
    let n = run.sent.len() as int;
    assert forall|i: int| 0 <= i < n implies 1 <= #[trigger] run.sent[i] <= PROGRESS_TOTAL by {
        if i > 0 {
            assert(run.sent[0] <= run.sent[i]);
        }
        if i < n - 1 {
            assert(run.sent[i] <= run.sent[n - 1]);
        }
    }
    assert forall|i: int| 0 <= i < n && #[trigger] run.sent[i] == FINAL_TICK implies i == n - 1
        && run.phase is Finished by {
        if i < n - 1 {
            if run.phase is Finished {
                if i < n - 2 {
                    assert(run.sent[i] <= run.sent[n - 2]);
                }
            } else {
                assert(run.sent[i] <= run.sent[n - 1]);
            }
        }
    }
}

impl ImageRun {
    /// Opens a run. The value returned is the first to report.
    pub fn open() -> (r: (Self, u32))
        ensures
            r.0@ == run_opened(),
            r.1 == OPENING_TICK,
            orderly(r.0@),
    {
        let mut sent: Vec<u32> = Vec::new();
        sent.push(OPENING_TICK);
        assert(sent@ =~= seq![OPENING_TICK]);
        (ImageRun { stream: ImageStream::new(), sent, phase: RunPhase::Reading }, OPENING_TICK)
    }

    /// Takes in one chunk of the response body and gives the progress
    /// values to report.
    pub fn feed(&mut self, chunk: &str) -> (ticks: Vec<u32>)
        ensures
            final(self)@ == run_after_chunk(old(self)@, chunk@),
            final(self)@.sent == old(self)@.sent + ticks@,
            orderly(old(self)@) ==> orderly(final(self)@),
    {
        proof {
            if orderly(self@) {
                chunk_keeps_run_orderly(self@, chunk@);
            }
        }
        match self.phase {
            RunPhase::Reading => {
                let ticks = self.stream.feed(chunk);
                let ghost fed = self.stream@;
                let mut i: usize = 0;
                while i < ticks.len()
                    invariant
                        i <= ticks.len(),
                        self.sent@ == old(self).sent@ + ticks@.take(i as int),
                        self.stream@ == fed,
                        self.phase == old(self).phase,
                    decreases ticks.len() - i,
                {
                    self.sent.push(ticks[i]);
                    assert(ticks@.take(i + 1) =~= ticks@.take(i as int).push(ticks@[i as int]));
                    assert(self.sent@ =~= old(self).sent@ + ticks@.take(i + 1));
                    i += 1;
                }
                assert(ticks@.take(i as int) =~= ticks@);
                ticks
            },
            _ => {
                let ticks: Vec<u32> = Vec::new();
                assert(self.sent@ + ticks@ =~= self.sent@);
                ticks
            },
        }
    }

    /// Ends the reading. Gives the value to report, unless the run was
    /// closed before, and how the stream ended.
    pub fn close(&mut self) -> (r: (Option<u32>, StreamEnd))
        ensures
            final(self)@ == run_closed(old(self)@),
            r.0 == if old(self)@.phase is Reading {
                Some(CLOSING_TICK)
            } else {
                None
            },
            r.1@ == stream_end(old(self)@.stream),
            orderly(old(self)@) ==> orderly(final(self)@),
    {
        proof {
            if orderly(self@) {
                end_keeps_run_orderly(self@, false);
            }
        }
        let end = self.stream.finish();
        match self.phase {
            RunPhase::Reading => {
                self.phase = RunPhase::Closed;
                self.sent.push(CLOSING_TICK);
                (Some(CLOSING_TICK), end)
            },
            _ => (None, end),
        }
    }

    /// Takes the outcome of the attempt. Gives the value to report: the
    /// total, for a closed run whose attempt ended with the image, once.
    pub fn conclude(&mut self, outcome: &Result<String, String>) -> (tick: Option<u32>)
        ensures
            final(self)@ == run_concluded(old(self)@, *outcome is Ok),
            tick == if *outcome is Ok && old(self)@.phase is Closed {
                Some(FINAL_TICK)
            } else {
                None
            },
            orderly(old(self)@) ==> orderly(final(self)@),
    {
        proof {
            if orderly(self@) {
                end_keeps_run_orderly(self@, *outcome is Ok);
            }
        }
        let closed = match self.phase {
            RunPhase::Closed => true,
            _ => false,
        };
        if closed && outcome.is_ok() {
            self.phase = RunPhase::Finished;
            self.sent.push(FINAL_TICK);
            Some(FINAL_TICK)
        } else {
            None
        }
    }

    /// Every progress value reported so far, in order.
    pub fn reported(&self) -> (sent: &Vec<u32>)
        ensures
            sent@ == self@.sent,
    {
        &self.sent
    }
}

} // verus!
