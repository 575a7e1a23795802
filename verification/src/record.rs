//! The intent record vocabulary: entries, their capture time, the
//! magnitudes that grade certainty and privacy, and the selections a
//! record query filters by.

use vstd::prelude::*;

verus! {

/// A graded level, from `Zero` up to `Maximum`. Certainty `Zero` marks a
/// removal candidate; privacy `Zero` is open/public.
#[derive(Debug, Clone, Copy, PartialEq, Eq, Hash, Structural)]
pub enum Magnitude {
    Zero,
    Minimum,
    VeryLow,
    Low,
    Medium,
    High,
    VeryHigh,
    Maximum,
}

/// The position of a magnitude on its scale.
pub open spec fn magnitude_rank(magnitude: Magnitude) -> int {
    match magnitude {
        Magnitude::Zero => 0,
        Magnitude::Minimum => 1,
        Magnitude::VeryLow => 2,
        Magnitude::Low => 3,
        Magnitude::Medium => 4,
        Magnitude::High => 5,
        Magnitude::VeryHigh => 6,
        Magnitude::Maximum => 7,
    }
}

impl Magnitude {
    pub fn rank(self) -> (rank: u8)
        ensures
            rank == magnitude_rank(self),
    {
        match self {
            Magnitude::Zero => 0,
            Magnitude::Minimum => 1,
            Magnitude::VeryLow => 2,
            Magnitude::Low => 3,
            Magnitude::Medium => 4,
            Magnitude::High => 5,
            Magnitude::VeryHigh => 6,
            Magnitude::Maximum => 7,
        }
    }
}

/// What sort of intent a record captures.
#[derive(Debug, Clone, Copy, PartialEq, Eq, Hash, Structural)]
pub enum Kind {
    Decision,
    Principle,
    Correction,
    Clarification,
    Constraint,
}

/// One topic word. Topics are registered by use.
#[derive(Debug, PartialEq, Eq, Hash)]
pub struct Topic {
    text: String,
}

impl View for Topic {
    type V = Seq<char>;

    closed spec fn view(&self) -> Seq<char> {
        self.text@
    }
}

impl Clone for Topic {
    fn clone(&self) -> (topic: Self)
        ensures
            topic == *self,
    {
        Topic { text: self.text.clone() }
    }
}

impl Topic {
    pub fn new(text: String) -> (topic: Self)
        ensures
            topic@ == text@,
    {
        Topic { text }
    }

    pub fn as_str(&self) -> (text: &str)
        ensures
            text@ == self@,
    {
        self.text.as_str()
    }

    pub fn to_text(&self) -> (text: String)
        ensures
            text@ == self@,
    {
        self.text.clone()
    }

    /// Whether two topics are the same word.
    pub fn same_topic(&self, other: &Topic) -> (same: bool)
        ensures
            same == (self@ == other@),
    {
        self.text == other.text
    }
}

/// The topic words of one entry.
pub open spec fn topic_words(topics: Seq<Topic>) -> Seq<Seq<char>> {
    topics.map_values(|topic: Topic| topic@)
}

/// A list of topics.
#[derive(Debug, PartialEq, Eq, Hash)]
pub struct Topics {
    topics: Vec<Topic>,
}

impl View for Topics {
    type V = Seq<Seq<char>>;

    closed spec fn view(&self) -> Seq<Seq<char>> {
        topic_words(self.topics@)
    }
}

impl Clone for Topics {
    fn clone(&self) -> (topics: Self)
        ensures
            topics@ == self@,
    {
        let copy = self.topics.clone();
        assert(copy@ =~= self.topics@);
        Topics { topics: copy }
    }
}

impl Topics {
    pub fn new(topics: Vec<Topic>) -> (result: Self)
        ensures
            result@ == topic_words(topics@),
    {
        Topics { topics }
    }

    pub fn single(topic: Topic) -> (result: Self)
        ensures
            result@ == seq![topic@],
    {
        let mut topics = Vec::new();
        topics.push(topic);
        let result = Topics { topics };
        assert(result@ =~= seq![topic@]);
        result
    }

    pub fn as_slice(&self) -> (topics: &[Topic])
        ensures
            topic_words(topics@) == self@,
    {
        self.topics.as_slice()
    }

    pub fn len(&self) -> (count: usize)
        ensures
            count == self@.len(),
    {
        self.topics.len()
    }

    pub fn is_empty(&self) -> (empty: bool)
        ensures
            empty == (self@.len() == 0),
    {
        self.topics.len() == 0
    }

    /// Whether the list holds the given topic word.
    pub fn contains(&self, topic: &Topic) -> (found: bool)
        ensures
            found == self@.contains(topic@),
    {
        let mut index: usize = 0;
        while index < self.topics.len()
            invariant
                index <= self.topics@.len(),
                forall|j: int| 0 <= j < index ==> self@[j] != topic@,
            decreases self.topics@.len() - index,
        {
            if self.topics[index].same_topic(topic) {
                assert(self@[index as int] == topic@);
                return true;
            }
            index += 1;
        }
        false
    }
}

/// The clarified text of an entry.
#[derive(Debug, PartialEq, Eq, Hash)]
pub struct Description {
    text: String,
}

impl View for Description {
    type V = Seq<char>;

    closed spec fn view(&self) -> Seq<char> {
        self.text@
    }
}

impl Clone for Description {
    fn clone(&self) -> (description: Self)
        ensures
            description == *self,
    {
        Description { text: self.text.clone() }
    }
}

impl Description {
    pub fn new(text: String) -> (description: Self)
        ensures
            description@ == text@,
    {
        Description { text }
    }

    pub fn as_str(&self) -> (text: &str)
        ensures
            text@ == self@,
    {
        self.text.as_str()
    }
}

/// One intent entry as a client submits it: no capture time.
#[derive(Debug, PartialEq, Eq)]
pub struct Entry {
    pub topics: Topics,
    pub kind: Kind,
    pub description: Description,
    pub certainty: Magnitude,
    pub privacy: Magnitude,
}

/// The plain content of an entry.
pub struct EntryView {
    pub topics: Seq<Seq<char>>,
    pub kind: Kind,
    pub description: Seq<char>,
    pub certainty: Magnitude,
    pub privacy: Magnitude,
}

impl View for Entry {
    type V = EntryView;

    open spec fn view(&self) -> EntryView {
        EntryView {
            topics: self.topics@,
            kind: self.kind,
            description: self.description@,
            certainty: self.certainty,
            privacy: self.privacy,
        }
    }
}

impl Clone for Entry {
    fn clone(&self) -> (entry: Self)
        ensures
            entry@ == self@,
    {
        Entry {
            topics: self.topics.clone(),
            kind: self.kind,
            description: self.description.clone(),
            certainty: self.certainty,
            privacy: self.privacy,
        }
    }
}

/// A calendar date, `YYYY-MM-DD`.
#[derive(Debug, Clone, Copy, PartialEq, Eq, Hash, Structural)]
pub struct Date {
    pub year: u16,
    pub month: u8,
    pub day: u8,
}

impl Date {
    pub fn new(year: u16, month: u8, day: u8) -> (date: Self)
        ensures
            date == (Date { year, month, day }),
    {
        Date { year, month, day }
    }
}

/// A time of day, `HH:MM:SS`.
#[derive(Debug, Clone, Copy, PartialEq, Eq, Hash, Structural)]
pub struct Time {
    pub hour: u8,
    pub minute: u8,
    pub second: u8,
}

impl Time {
    pub fn new(hour: u8, minute: u8, second: u8) -> (time: Self)
        ensures
            time == (Time { hour, minute, second }),
    {
        Time { hour, minute, second }
    }
}

/// The moment a record was captured.
#[derive(Debug, Clone, Copy, PartialEq, Eq, Hash, Structural)]
pub struct RecordedTime {
    pub date: Date,
    pub time: Time,
}

/// The capture moment as one number, ordered as the calendar orders it:
/// year, then month, day, hour, minute, second.
pub open spec fn time_key(moment: RecordedTime) -> int {
    moment.date.year * 0x100_0000_0000 + moment.date.month * 0x1_0000_0000 + moment.date.day
        * 0x100_0000 + moment.time.hour * 0x1_0000 + moment.time.minute * 0x100
        + moment.time.second
}

impl RecordedTime {
    pub fn new(date: Date, time: Time) -> (moment: Self)
        ensures
            moment == (RecordedTime { date, time }),
    {
        RecordedTime { date, time }
    }

    /// The capture moment as one number (see `time_key`).
    pub fn key(&self) -> (key: u64)
        ensures
            key == time_key(*self),
    {
        self.date.year as u64 * 0x100_0000_0000 + self.date.month as u64 * 0x1_0000_0000
            + self.date.day as u64 * 0x100_0000 + self.time.hour as u64 * 0x1_0000
            + self.time.minute as u64 * 0x100 + self.time.second as u64
    }

    /// Whether `self` is no later than `other`.
    pub fn not_after(&self, other: &RecordedTime) -> (earlier_or_same: bool)
        ensures
            earlier_or_same == (time_key(*self) <= time_key(*other)),
    {
        self.key() <= other.key()
    }
}

/// An inclusive window of capture moments.
#[derive(Debug, Clone, Copy, PartialEq, Eq, Hash, Structural)]
pub struct RecordedTimeRange {
    pub start: RecordedTime,
    pub end: RecordedTime,
}

impl RecordedTimeRange {
    pub fn new(start: RecordedTime, end: RecordedTime) -> (range: Self)
        ensures
            range == (RecordedTimeRange { start, end }),
    {
        RecordedTimeRange { start, end }
    }
}

/// How a query selects records by topic: every record, records holding at
/// least one of the listed topics, or records holding all of them.
#[derive(Debug, PartialEq, Eq)]
pub enum TopicSelection {
    Any,
    Partial(Vec<Topic>),
    Full(Vec<Topic>),
}

/// At least one wanted topic word is among `topics`.
pub open spec fn holds_some(wanted: Seq<Seq<char>>, topics: Seq<Seq<char>>) -> bool {
    exists|i: int| 0 <= i < wanted.len() && topics.contains(#[trigger] wanted[i])
}

/// Every wanted topic word is among `topics`.
pub open spec fn holds_all(wanted: Seq<Seq<char>>, topics: Seq<Seq<char>>) -> bool {
    forall|i: int| 0 <= i < wanted.len() ==> topics.contains(#[trigger] wanted[i])
}

/// Whether a record's topic words satisfy a topic selection.
pub open spec fn topic_selection_matches(selection: TopicSelection, topics: Seq<Seq<char>>) -> bool {
    match selection {
        TopicSelection::Any => true,
        TopicSelection::Partial(wanted) => holds_some(topic_words(wanted@), topics),
        TopicSelection::Full(wanted) => holds_all(topic_words(wanted@), topics),
    }
}

impl TopicSelection {
    pub fn any() -> (selection: Self)
        ensures
            selection is Any,
    {
        TopicSelection::Any
    }

    pub fn partial(topics: Vec<Topic>) -> (selection: Self)
        ensures
            selection == TopicSelection::Partial(topics),
    {
        TopicSelection::Partial(topics)
    }

    pub fn full(topics: Vec<Topic>) -> (selection: Self)
        ensures
            selection == TopicSelection::Full(topics),
    {
        TopicSelection::Full(topics)
    }

    #[verifier::loop_isolation(false)]
    pub fn matches(&self, topics: &Topics) -> (matched: bool)
        ensures
            matched == topic_selection_matches(*self, topics@),
    {
        match self {
            TopicSelection::Any => true,
            TopicSelection::Partial(wanted) => {
                let mut index: usize = 0;
                while index < wanted.len()
                    invariant
                        index <= wanted@.len(),
                        forall|j: int| 0 <= j < index ==> !topics@.contains(#[trigger] topic_words(wanted@)[j]),
                    decreases wanted@.len() - index,
                {
                    if topics.contains(&wanted[index]) {
                        assert(topics@.contains(topic_words(wanted@)[index as int]));
                        return true;
                    }
                    index += 1;
                }
                false
            },
            TopicSelection::Full(wanted) => {
                let mut index: usize = 0;
                while index < wanted.len()
                    invariant
                        index <= wanted@.len(),
                        forall|j: int| 0 <= j < index ==> topics@.contains(#[trigger] topic_words(wanted@)[j]),
                    decreases wanted@.len() - index,
                {
                    if !topics.contains(&wanted[index]) {
                        assert(!topics@.contains(topic_words(wanted@)[index as int]));
                        return false;
                    }
                    index += 1;
                }
                true
            },
        }
    }
}

/// How a query selects records by a magnitude: any level, exactly one
/// level, at most a level, or at least a level.
#[derive(Debug, Clone, Copy, PartialEq, Eq, Hash, Structural)]
pub enum MagnitudeSelection {
    Any,
    Exact(Magnitude),
    AtMost(Magnitude),
    AtLeast(Magnitude),
}

/// Whether a level satisfies a magnitude selection.
pub open spec fn magnitude_selection_matches(selection: MagnitudeSelection, level: Magnitude) -> bool {
    match selection {
        MagnitudeSelection::Any => true,
        MagnitudeSelection::Exact(wanted) => level == wanted,
        MagnitudeSelection::AtMost(bound) => magnitude_rank(level) <= magnitude_rank(bound),
        MagnitudeSelection::AtLeast(bound) => magnitude_rank(level) >= magnitude_rank(bound),
    }
}

/// What each magnitude selection lets through, on the scale Zero <
/// Minimum < VeryLow < Low < Medium < High < VeryHigh < Maximum: `Any`
/// every level, `Exact(b)` only `b`, `AtMost(b)` the levels at or below `b`
/// and `AtLeast(b)` those at or above it. So `AtLeast(b)` lets `b` through,
/// lets through every level above one it lets through, and never a level
/// below `b`; `AtLeast(Maximum)` lets only `Maximum` through and
/// `AtLeast(Zero)` everything; `AtMost` mirrors it; and the levels both
/// `AtLeast(b)` and `AtMost(b)` let through are exactly `b`.
pub proof fn law_magnitude_selections_admit_by_rank(bound: Magnitude, level: Magnitude, higher: Magnitude)
    ensures
        magnitude_selection_matches(MagnitudeSelection::Any, level),
        magnitude_selection_matches(MagnitudeSelection::Exact(bound), level) <==> level == bound,
        magnitude_selection_matches(MagnitudeSelection::AtLeast(bound), level) <==> magnitude_rank(level)
            >= magnitude_rank(bound),
        magnitude_selection_matches(MagnitudeSelection::AtMost(bound), level) <==> magnitude_rank(level)
            <= magnitude_rank(bound),
        magnitude_selection_matches(MagnitudeSelection::AtLeast(bound), bound),
        magnitude_selection_matches(MagnitudeSelection::AtMost(bound), bound),
        magnitude_selection_matches(MagnitudeSelection::AtLeast(bound), level) && magnitude_rank(level)
            <= magnitude_rank(higher) ==> magnitude_selection_matches(
            MagnitudeSelection::AtLeast(bound),
            higher,
        ),
        magnitude_selection_matches(MagnitudeSelection::AtMost(bound), higher) && magnitude_rank(level)
            <= magnitude_rank(higher) ==> magnitude_selection_matches(
            MagnitudeSelection::AtMost(bound),
            level,
        ),
        magnitude_selection_matches(MagnitudeSelection::AtLeast(Magnitude::Maximum), level) <==> level
            == Magnitude::Maximum,
        magnitude_selection_matches(MagnitudeSelection::AtMost(Magnitude::Zero), level) <==> level
            == Magnitude::Zero,
        magnitude_selection_matches(MagnitudeSelection::AtLeast(Magnitude::Zero), level),
        magnitude_selection_matches(MagnitudeSelection::AtMost(Magnitude::Maximum), level),
        magnitude_selection_matches(MagnitudeSelection::AtLeast(bound), level)
            || magnitude_selection_matches(MagnitudeSelection::AtMost(bound), level),
        (magnitude_selection_matches(MagnitudeSelection::AtLeast(bound), level)
            && magnitude_selection_matches(MagnitudeSelection::AtMost(bound), level)) <==> level
            == bound,
        level != bound && magnitude_selection_matches(MagnitudeSelection::AtLeast(bound), level)
            ==> !magnitude_selection_matches(MagnitudeSelection::AtMost(bound), level),
{
}

impl MagnitudeSelection {
    pub fn matches(self, level: Magnitude) -> (matched: bool)
        ensures
            matched == magnitude_selection_matches(self, level),
    {
        match self {
            MagnitudeSelection::Any => true,
            MagnitudeSelection::Exact(wanted) => level == wanted,
            MagnitudeSelection::AtMost(bound) => level.rank() <= bound.rank(),
            MagnitudeSelection::AtLeast(bound) => level.rank() >= bound.rank(),
        }
    }

    /// The removal-candidate certainty selection: exactly `Zero`.
    pub fn removal_candidates() -> (selection: Self)
        ensures
            selection == MagnitudeSelection::Exact(Magnitude::Zero),
    {
        MagnitudeSelection::Exact(Magnitude::Zero)
    }

    /// The privacy selection a plain observation uses: exactly `Zero`, so
    /// elevated privacy records must be asked for explicitly.
    pub fn default_observation_privacy() -> (selection: Self)
        ensures
            selection == MagnitudeSelection::Exact(Magnitude::Zero),
    {
        MagnitudeSelection::Exact(Magnitude::Zero)
    }
}

/// How a query selects records by capture time: any time, an inclusive
/// window, or a qualitative recency depth that keeps the newest matches.
#[derive(Debug, Clone, Copy, PartialEq, Eq, Hash, Structural)]
pub enum RecordedTimeSelection {
    Any,
    Between(RecordedTimeRange),
    Shallow,
    Recent,
    Deep,
    VeryDeep,
}

/// Whether a capture moment satisfies a time selection (recency depths
/// match every moment; they cut the result afterwards).
pub open spec fn time_selection_matches(selection: RecordedTimeSelection, moment: RecordedTime) -> bool {
    match selection {
        RecordedTimeSelection::Between(range) => time_key(range.start) <= time_key(moment)
            && time_key(moment) <= time_key(range.end),
        _ => true,
    }
}

/// How many of the newest matching records a recency depth keeps.
pub open spec fn recency_limit(selection: RecordedTimeSelection) -> Option<nat> {
    match selection {
        RecordedTimeSelection::Shallow => Some(5),
        RecordedTimeSelection::Recent => Some(15),
        RecordedTimeSelection::Deep => Some(30),
        RecordedTimeSelection::VeryDeep => Some(100),
        _ => None,
    }
}

impl RecordedTimeSelection {
    pub fn matches(self, moment: RecordedTime) -> (matched: bool)
        ensures
            matched == time_selection_matches(self, moment),
    {
        match self {
            RecordedTimeSelection::Between(range) => range.start.not_after(&moment)
                && moment.not_after(&range.end),
            _ => true,
        }
    }

    /// The number of newest records a recency depth keeps, if it is one.
    pub fn recency_limit(self) -> (limit: Option<usize>)
        ensures
            match limit {
                Some(n) => recency_limit(self) == Some(n as nat),
                None => recency_limit(self) is None,
            },
    {
        match self {
            RecordedTimeSelection::Shallow => Some(5),
            RecordedTimeSelection::Recent => Some(15),
            RecordedTimeSelection::Deep => Some(30),
            RecordedTimeSelection::VeryDeep => Some(100),
            _ => None,
        }
    }
}

/// Whether a query answers with summaries only or with capture provenance.
#[derive(Debug, Clone, Copy, PartialEq, Eq, Hash, Structural)]
pub enum ObservationMode {
    SummaryOnly,
    WithProvenance,
}

/// A record query: every filter a record must pass, and the answer shape.
#[derive(Debug, PartialEq, Eq)]
pub struct RecordQuery {
    pub topic_selection: TopicSelection,
    pub kind: Option<Kind>,
    pub certainty_selection: MagnitudeSelection,
    pub recorded_time_selection: RecordedTimeSelection,
    pub privacy_selection: MagnitudeSelection,
    pub mode: ObservationMode,
}

impl RecordQuery {
    /// The removal-candidate review query: exact `Zero` certainty and exact
    /// `Zero` privacy, any topic, kind and time.
    pub fn removal_candidates(mode: ObservationMode) -> (query: Self)
        ensures
            query.topic_selection is Any,
            query.kind is None,
            query.certainty_selection == MagnitudeSelection::Exact(Magnitude::Zero),
            query.recorded_time_selection == RecordedTimeSelection::Any,
            query.privacy_selection == MagnitudeSelection::Exact(Magnitude::Zero),
            query.mode == mode,
    {
        RecordQuery {
            topic_selection: TopicSelection::Any,
            kind: None,
            certainty_selection: MagnitudeSelection::Exact(Magnitude::Zero),
            recorded_time_selection: RecordedTimeSelection::Any,
            privacy_selection: MagnitudeSelection::Exact(Magnitude::Zero),
            mode,
        }
    }

    /// Whether this query is exactly the removal-candidate review query's
    /// certainty and privacy: exact `Zero` for both.
    pub fn is_exact_zero_candidate_query(&self) -> (exact: bool)
        ensures
            exact == (self.certainty_selection == MagnitudeSelection::Exact(Magnitude::Zero)
                && self.privacy_selection == MagnitudeSelection::Exact(Magnitude::Zero)),
    {
        self.certainty_selection == MagnitudeSelection::Exact(Magnitude::Zero)
            && self.privacy_selection == MagnitudeSelection::Exact(Magnitude::Zero)
    }
}

/// A partial selection of one topic matches exactly the topic lists that
/// hold it.
pub proof fn lemma_single_partial(listed: Vec<Topic>, wanted: Topic)
    requires
        listed@.len() == 1,
        listed@[0] == wanted,
    ensures
        forall|topics: Seq<Seq<char>>|
            #[trigger] topic_selection_matches(TopicSelection::Partial(listed), topics)
                == topics.contains(wanted@),
{
    let words = topic_words(listed@);
    assert(words.len() == 1 && words[0] == wanted@);
    assert forall|topics: Seq<Seq<char>>|
        #[trigger] topic_selection_matches(TopicSelection::Partial(listed), topics)
            == topics.contains(wanted@) by {
        if topics.contains(wanted@) {
            assert(topics.contains(words[0]));
        }
        if holds_some(words, topics) {
            let i = choose|i: int| 0 <= i < words.len() && topics.contains(#[trigger] words[i]);
            assert(i == 0);
        }
    }
}

} // verus!
