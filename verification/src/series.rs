//! Query options for the series-observations endpoint.
//!
//! Closed enumerations give the accepted values of the enumerated
//! parameters; `ObservationBuilder` accumulates optional parameters through
//! chained setters and renders them as a query-string fragment.

use vstd::prelude::*;
use vstd::string::StringExecFns;
use crate::encode::lemma_add_assoc;
use crate::encode::lemma_add_empty_left;
use crate::encode::lemma_add_empty_right;
use crate::encode::lemma_percent_encode_unreserved;
use crate::encode::percent_encode_onto;
use crate::encode::push_decimal;
use crate::encode::spec_decimal;
use crate::encode::spec_percent_encode;

verus! {

/// Requested transformation of the raw series values.
#[derive(Clone, Copy, PartialEq, Eq, Structural, Debug)]
pub enum ObservationUnits {
    /// Levels, no transformation.
    LIN,
    /// Change.
    CHG,
    /// Change from a year ago.
    CH1,
    /// Percent change.
    PCH,
    /// Percent change from a year ago.
    PC1,
    /// Compounded annual rate of change.
    PCA,
    /// Continuously compounded rate of change.
    CCH,
    /// Continuously compounded annual rate of change.
    CCA,
    /// Natural log.
    LOG,
}

impl ObservationUnits {
    /// The canonical token the API accepts for this member.
    pub open spec fn spec_token(self) -> Seq<char> {
        match self {
            ObservationUnits::LIN => "lin"@,
            ObservationUnits::CHG => "chg"@,
            ObservationUnits::CH1 => "ch1"@,
            ObservationUnits::PCH => "pch"@,
            ObservationUnits::PC1 => "pc1"@,
            ObservationUnits::PCA => "pca"@,
            ObservationUnits::CCH => "cch"@,
            ObservationUnits::CCA => "cca"@,
            ObservationUnits::LOG => "log"@,
        }
    }

    /// Renders this member as its canonical token.
    pub fn token(&self) -> (r: &'static str)
        ensures
            r@ == self.spec_token(),
    {
        match self {
            ObservationUnits::LIN => "lin",
            ObservationUnits::CHG => "chg",
            ObservationUnits::CH1 => "ch1",
            ObservationUnits::PCH => "pch",
            ObservationUnits::PC1 => "pc1",
            ObservationUnits::PCA => "pca",
            ObservationUnits::CCH => "cch",
            ObservationUnits::CCA => "cca",
            ObservationUnits::LOG => "log",
        }
    }
}

/// Every member renders to a well-formed token: non-empty, and made of
/// unreserved characters only, so encoding would leave it unchanged.
pub proof fn lemma_units_token_wellformed(u: ObservationUnits)
    ensures
        u.spec_token().len() > 0,
        spec_percent_encode(u.spec_token()) == u.spec_token(),
{
    match u {
        ObservationUnits::LIN => {
            reveal_strlit("lin");
            lemma_percent_encode_unreserved("lin"@);
        },
        ObservationUnits::CHG => {
            reveal_strlit("chg");
            lemma_percent_encode_unreserved("chg"@);
        },
        ObservationUnits::CH1 => {
            reveal_strlit("ch1");
            lemma_percent_encode_unreserved("ch1"@);
        },
        ObservationUnits::PCH => {
            reveal_strlit("pch");
            lemma_percent_encode_unreserved("pch"@);
        },
        ObservationUnits::PC1 => {
            reveal_strlit("pc1");
            lemma_percent_encode_unreserved("pc1"@);
        },
        ObservationUnits::PCA => {
            reveal_strlit("pca");
            lemma_percent_encode_unreserved("pca"@);
        },
        ObservationUnits::CCH => {
            reveal_strlit("cch");
            lemma_percent_encode_unreserved("cch"@);
        },
        ObservationUnits::CCA => {
            reveal_strlit("cca");
            lemma_percent_encode_unreserved("cca"@);
        },
        ObservationUnits::LOG => {
            reveal_strlit("log");
            lemma_percent_encode_unreserved("log"@);
        },
    }
}

/// Requested sampling or aggregation period of the returned observations.
#[derive(Clone, Copy, PartialEq, Eq, Structural, Debug)]
pub enum ObservationFrequency {
    /// Daily.
    D,
    /// Weekly.
    W,
    /// Biweekly.
    BW,
    /// Monthly.
    M,
    /// Quarterly.
    Q,
    /// Semiannual.
    SA,
    /// Annual.
    A,
    /// Weekly, ending Friday.
    WEF,
    /// Weekly, ending Thursday.
    WETH,
    /// Weekly, ending Wednesday.
    WEW,
    /// Weekly, ending Tuesday.
    WETU,
    /// Weekly, ending Monday.
    WEM,
    /// Weekly, ending Sunday.
    WESU,
    /// Weekly, ending Saturday.
    WESA,
    /// Biweekly, ending Wednesday.
    BWEW,
    /// Biweekly, ending Monday.
    BWEM,
}

impl ObservationFrequency {
    /// The canonical token the API accepts for this member.
    pub open spec fn spec_token(self) -> Seq<char> {
        match self {
            ObservationFrequency::D => "d"@,
            ObservationFrequency::W => "w"@,
            ObservationFrequency::BW => "bw"@,
            ObservationFrequency::M => "m"@,
            ObservationFrequency::Q => "q"@,
            ObservationFrequency::SA => "sa"@,
            ObservationFrequency::A => "a"@,
            ObservationFrequency::WEF => "wef"@,
            ObservationFrequency::WETH => "weth"@,
            ObservationFrequency::WEW => "wew"@,
            ObservationFrequency::WETU => "wetu"@,
            ObservationFrequency::WEM => "wem"@,
            ObservationFrequency::WESU => "wesu"@,
            ObservationFrequency::WESA => "wesa"@,
            ObservationFrequency::BWEW => "bwew"@,
            ObservationFrequency::BWEM => "bwem"@,
        }
    }

    /// Renders this member as its canonical token.
    pub fn token(&self) -> (r: &'static str)
        ensures
            r@ == self.spec_token(),
    {
        match self {
            ObservationFrequency::D => "d",
            ObservationFrequency::W => "w",
            ObservationFrequency::BW => "bw",
            ObservationFrequency::M => "m",
            ObservationFrequency::Q => "q",
            ObservationFrequency::SA => "sa",
            ObservationFrequency::A => "a",
            ObservationFrequency::WEF => "wef",
            ObservationFrequency::WETH => "weth",
            ObservationFrequency::WEW => "wew",
            ObservationFrequency::WETU => "wetu",
            ObservationFrequency::WEM => "wem",
            ObservationFrequency::WESU => "wesu",
            ObservationFrequency::WESA => "wesa",
            ObservationFrequency::BWEW => "bwew",
            ObservationFrequency::BWEM => "bwem",
        }
    }
}

/// Every member renders to a well-formed token: non-empty, and made of
/// unreserved characters only, so encoding would leave it unchanged.
pub proof fn lemma_frequency_token_wellformed(f: ObservationFrequency)
    ensures
        f.spec_token().len() > 0,
        spec_percent_encode(f.spec_token()) == f.spec_token(),
{
    match f {
        ObservationFrequency::D => {
            reveal_strlit("d");
            lemma_percent_encode_unreserved("d"@);
        },
        ObservationFrequency::W => {
            reveal_strlit("w");
            lemma_percent_encode_unreserved("w"@);
        },
        ObservationFrequency::BW => {
            reveal_strlit("bw");
            lemma_percent_encode_unreserved("bw"@);
        },
        ObservationFrequency::M => {
            reveal_strlit("m");
            lemma_percent_encode_unreserved("m"@);
        },
        ObservationFrequency::Q => {
            reveal_strlit("q");
            lemma_percent_encode_unreserved("q"@);
        },
        ObservationFrequency::SA => {
            reveal_strlit("sa");
            lemma_percent_encode_unreserved("sa"@);
        },
        ObservationFrequency::A => {
            reveal_strlit("a");
            lemma_percent_encode_unreserved("a"@);
        },
        ObservationFrequency::WEF => {
            reveal_strlit("wef");
            lemma_percent_encode_unreserved("wef"@);
        },
        ObservationFrequency::WETH => {
            reveal_strlit("weth");
            lemma_percent_encode_unreserved("weth"@);
        },
        ObservationFrequency::WEW => {
            reveal_strlit("wew");
            lemma_percent_encode_unreserved("wew"@);
        },
        ObservationFrequency::WETU => {
            reveal_strlit("wetu");
            lemma_percent_encode_unreserved("wetu"@);
        },
        ObservationFrequency::WEM => {
            reveal_strlit("wem");
            lemma_percent_encode_unreserved("wem"@);
        },
        ObservationFrequency::WESU => {
            reveal_strlit("wesu");
            lemma_percent_encode_unreserved("wesu"@);
        },
        ObservationFrequency::WESA => {
            reveal_strlit("wesa");
            lemma_percent_encode_unreserved("wesa"@);
        },
        ObservationFrequency::BWEW => {
            reveal_strlit("bwew");
            lemma_percent_encode_unreserved("bwew"@);
        },
        ObservationFrequency::BWEM => {
            reveal_strlit("bwem");
            lemma_percent_encode_unreserved("bwem"@);
        },
    }
}

/// Order of the returned observations by date.
#[derive(Clone, Copy, PartialEq, Eq, Structural, Debug)]
pub enum SortOrder {
    /// Earliest date first.
    Ascending,
    /// Latest date first.
    Descending,
}

impl SortOrder {
    /// The canonical token the API accepts for this member.
    pub open spec fn spec_token(self) -> Seq<char> {
        match self {
            SortOrder::Ascending => "asc"@,
            SortOrder::Descending => "desc"@,
        }
    }

    /// Renders this member as its canonical token.
    pub fn token(&self) -> (r: &'static str)
        ensures
            r@ == self.spec_token(),
    {
        match self {
            SortOrder::Ascending => "asc",
            SortOrder::Descending => "desc",
        }
    }
}

/// Every member renders to a well-formed token: non-empty, and made of
/// unreserved characters only, so encoding would leave it unchanged.
pub proof fn lemma_sort_order_token_wellformed(o: SortOrder)
    ensures
        o.spec_token().len() > 0,
        spec_percent_encode(o.spec_token()) == o.spec_token(),
{
    match o {
        SortOrder::Ascending => {
            reveal_strlit("asc");
            lemma_percent_encode_unreserved("asc"@);
        },
        SortOrder::Descending => {
            reveal_strlit("desc");
            lemma_percent_encode_unreserved("desc"@);
        },
    }
}

/// How observations are aggregated when a lower frequency is requested.
#[derive(Clone, Copy, PartialEq, Eq, Structural, Debug)]
pub enum AggregationMethod {
    /// Average of the period.
    Average,
    /// Sum over the period.
    Sum,
    /// Value at the end of the period.
    EndOfPeriod,
}

impl AggregationMethod {
    /// The canonical token the API accepts for this member.
    pub open spec fn spec_token(self) -> Seq<char> {
        match self {
            AggregationMethod::Average => "avg"@,
            AggregationMethod::Sum => "sum"@,
            AggregationMethod::EndOfPeriod => "eop"@,
        }
    }

    /// Renders this member as its canonical token.
    pub fn token(&self) -> (r: &'static str)
        ensures
            r@ == self.spec_token(),
    {
        match self {
            AggregationMethod::Average => "avg",
            AggregationMethod::Sum => "sum",
            AggregationMethod::EndOfPeriod => "eop",
        }
    }
}

/// Every member renders to a well-formed token: non-empty, and made of
/// unreserved characters only, so encoding would leave it unchanged.
pub proof fn lemma_aggregation_method_token_wellformed(m: AggregationMethod)
    ensures
        m.spec_token().len() > 0,
        spec_percent_encode(m.spec_token()) == m.spec_token(),
{
    match m {
        AggregationMethod::Average => {
            reveal_strlit("avg");
            lemma_percent_encode_unreserved("avg"@);
        },
        AggregationMethod::Sum => {
            reveal_strlit("sum");
            lemma_percent_encode_unreserved("sum"@);
        },
        AggregationMethod::EndOfPeriod => {
            reveal_strlit("eop");
            lemma_percent_encode_unreserved("eop"@);
        },
    }
}

/// Which vintage information the endpoint reports for each observation.
#[derive(Clone, Copy, PartialEq, Eq, Structural, Debug)]
pub enum OutputType {
    /// Observations by real-time period.
    RealtimePeriod,
    /// All vintage dates.
    VintageDateAll,
    /// New and revised observations only.
    VintageDateNew,
    /// Initial release only.
    InitialReleaseOnly,
}

impl OutputType {
    /// The canonical token the API accepts for this member.
    pub open spec fn spec_token(self) -> Seq<char> {
        match self {
            OutputType::RealtimePeriod => "1"@,
            OutputType::VintageDateAll => "2"@,
            OutputType::VintageDateNew => "3"@,
            OutputType::InitialReleaseOnly => "4"@,
        }
    }

    /// Renders this member as its canonical token.
    pub fn token(&self) -> (r: &'static str)
        ensures
            r@ == self.spec_token(),
    {
        match self {
            OutputType::RealtimePeriod => "1",
            OutputType::VintageDateAll => "2",
            OutputType::VintageDateNew => "3",
            OutputType::InitialReleaseOnly => "4",
        }
    }
}

/// Every member renders to a well-formed token: non-empty, and made of
/// unreserved characters only, so encoding would leave it unchanged.
pub proof fn lemma_output_type_token_wellformed(t: OutputType)
    ensures
        t.spec_token().len() > 0,
        spec_percent_encode(t.spec_token()) == t.spec_token(),
{
    match t {
        OutputType::RealtimePeriod => {
            reveal_strlit("1");
            lemma_percent_encode_unreserved("1"@);
        },
        OutputType::VintageDateAll => {
            reveal_strlit("2");
            lemma_percent_encode_unreserved("2"@);
        },
        OutputType::VintageDateNew => {
            reveal_strlit("3");
            lemma_percent_encode_unreserved("3"@);
        },
        OutputType::InitialReleaseOnly => {
            reveal_strlit("4");
            lemma_percent_encode_unreserved("4"@);
        },
    }
}

/// The abstract state of an `ObservationBuilder`: for each option, either
/// nothing, or the exact characters that will stand after `key=` in the
/// rendered fragment.
#[verifier::ext_equal]
pub struct BuilderModel {
    pub realtime_start: Option<Seq<char>>,
    pub realtime_end: Option<Seq<char>>,
    pub limit: Option<Seq<char>>,
    pub offset: Option<Seq<char>>,
    pub sort_order: Option<Seq<char>>,
    pub observation_start: Option<Seq<char>>,
    pub observation_end: Option<Seq<char>>,
    pub units: Option<Seq<char>>,
    pub frequency: Option<Seq<char>>,
    pub aggregation_method: Option<Seq<char>>,
    pub output_type: Option<Seq<char>>,
    pub vintage_dates: Option<Seq<char>>,
}

/// One option of the builder, named abstractly.
#[derive(Clone, Copy, PartialEq, Eq, Structural, Debug)]
pub enum BuilderOption {
    RealtimeStart,
    RealtimeEnd,
    Limit,
    Offset,
    SortOrder,
    ObservationStart,
    ObservationEnd,
    Units,
    Frequency,
    AggregationMethod,
    OutputType,
    VintageDates,
}

/// The model in which every option is unset.
pub open spec fn empty_model() -> BuilderModel {
    BuilderModel {
        realtime_start: None,
        realtime_end: None,
        limit: None,
        offset: None,
        sort_order: None,
        observation_start: None,
        observation_end: None,
        units: None,
        frequency: None,
        aggregation_method: None,
        output_type: None,
        vintage_dates: None,
    }
}

/// The model after one setter call: the named option now holds `v`, every
/// other option is unchanged.
pub open spec fn set_option(m: BuilderModel, o: BuilderOption, v: Seq<char>) -> BuilderModel {
    match o {
        BuilderOption::RealtimeStart => BuilderModel { realtime_start: Some(v), ..m },
        BuilderOption::RealtimeEnd => BuilderModel { realtime_end: Some(v), ..m },
        BuilderOption::Limit => BuilderModel { limit: Some(v), ..m },
        BuilderOption::Offset => BuilderModel { offset: Some(v), ..m },
        BuilderOption::SortOrder => BuilderModel { sort_order: Some(v), ..m },
        BuilderOption::ObservationStart => BuilderModel { observation_start: Some(v), ..m },
        BuilderOption::ObservationEnd => BuilderModel { observation_end: Some(v), ..m },
        BuilderOption::Units => BuilderModel { units: Some(v), ..m },
        BuilderOption::Frequency => BuilderModel { frequency: Some(v), ..m },
        BuilderOption::AggregationMethod => BuilderModel { aggregation_method: Some(v), ..m },
        BuilderOption::OutputType => BuilderModel { output_type: Some(v), ..m },
        BuilderOption::VintageDates => BuilderModel { vintage_dates: Some(v), ..m },
    }
}

/// How one option appears in the rendered fragment: nothing while unset,
/// else its `&key=` prefix followed by the stored characters.
pub open spec fn opt_part(prefix: Seq<char>, v: Option<Seq<char>>) -> Seq<char> {
    match v {
        None => Seq::empty(),
        Some(s) => prefix + s,
    }
}

/// The encoded characters of an optional free-form value.
pub open spec fn spec_opt_encode(v: Option<String>) -> Option<Seq<char>> {
    match v {
        Some(s) => Some(spec_percent_encode(s@)),
        None => None,
    }
}

/// The decimal rendering of an optional count.
pub open spec fn spec_opt_u64(v: Option<u64>) -> Option<Seq<char>> {
    match v {
        Some(n) => Some(spec_decimal(n as int)),
        None => None,
    }
}

/// The token of an optional units member.
pub open spec fn spec_opt_units(v: Option<ObservationUnits>) -> Option<Seq<char>> {
    match v {
        Some(u) => Some(u.spec_token()),
        None => None,
    }
}

/// The token of an optional frequency member.
pub open spec fn spec_opt_frequency(v: Option<ObservationFrequency>) -> Option<Seq<char>> {
    match v {
        Some(f) => Some(f.spec_token()),
        None => None,
    }
}

/// The token of an optional sort order member.
pub open spec fn spec_opt_sort_order(v: Option<SortOrder>) -> Option<Seq<char>> {
    match v {
        Some(o) => Some(o.spec_token()),
        None => None,
    }
}

/// The token of an optional aggregation method member.
pub open spec fn spec_opt_aggregation(v: Option<AggregationMethod>) -> Option<Seq<char>> {
    match v {
        Some(a) => Some(a.spec_token()),
        None => None,
    }
}

/// The token of an optional output type member.
pub open spec fn spec_opt_output_type(v: Option<OutputType>) -> Option<Seq<char>> {
    match v {
        Some(t) => Some(t.spec_token()),
        None => None,
    }
}

fn append_value_part(out: &mut String, prefix: &str, v: &Option<String>)
    ensures
        final(out)@ == old(out)@ + opt_part(prefix@, spec_opt_encode(*v)),
{
    match v {
        Some(s) => {
            out.append(prefix);
            percent_encode_onto(out, s.as_str());
            proof {
                lemma_add_assoc(old(out)@, prefix@, spec_percent_encode(s@));
            }
        },
        None => {
            proof {
                lemma_add_empty_right(old(out)@);
            }
        },
    }
}

fn append_u64_part(out: &mut String, prefix: &str, v: Option<u64>)
    ensures
        final(out)@ == old(out)@ + opt_part(prefix@, spec_opt_u64(v)),
{
    match v {
        Some(n) => {
            out.append(prefix);
            push_decimal(out, n);
            proof {
                lemma_add_assoc(old(out)@, prefix@, spec_decimal(n as int));
            }
        },
        None => {
            proof {
                lemma_add_empty_right(old(out)@);
            }
        },
    }
}

fn append_token_part(out: &mut String, prefix: &str, tok: Option<&str>)
    ensures
        final(out)@ == old(out)@ + opt_part(
            prefix@,
            match tok {
                Some(t) => Some(t@),
                None => None,
            },
        ),
{
    match tok {
        Some(t) => {
            out.append(prefix);
            out.append(t);
            proof {
                lemma_add_assoc(old(out)@, prefix@, t@);
            }
        },
        None => {
            proof {
                lemma_add_empty_right(old(out)@);
            }
        },
    }
}

/// The rendered query fragment of a builder state: the set options in
/// declaration order, each as `&key=value`.
pub open spec fn spec_options(m: BuilderModel) -> Seq<char> {
    opt_part("&realtime_start="@, m.realtime_start) + opt_part("&realtime_end="@, m.realtime_end)
        + opt_part("&limit="@, m.limit) + opt_part("&offset="@, m.offset)
        + opt_part("&sort_order="@, m.sort_order) + opt_part(
        "&observation_start="@,
        m.observation_start,
    ) + opt_part("&observation_end="@, m.observation_end) + opt_part("&units="@, m.units)
        + opt_part("&frequency="@, m.frequency) + opt_part(
        "&aggregation_method="@,
        m.aggregation_method,
    ) + opt_part("&output_type="@, m.output_type) + opt_part("&vintage_dates="@, m.vintage_dates)
}

/// Accumulates the optional parameters of one series-observations request.
///
/// Every representable state is a valid partial query; the remote service is
/// the authority on semantic validity of the values themselves.
pub struct ObservationBuilder {
    realtime_start: Option<String>,
    realtime_end: Option<String>,
    limit: Option<u64>,
    offset: Option<u64>,
    sort_order: Option<SortOrder>,
    observation_start: Option<String>,
    observation_end: Option<String>,
    units: Option<ObservationUnits>,
    frequency: Option<ObservationFrequency>,
    aggregation_method: Option<AggregationMethod>,
    output_type: Option<OutputType>,
    vintage_dates: Option<String>,
}

impl View for ObservationBuilder {
    type V = BuilderModel;

    closed spec fn view(&self) -> BuilderModel {
        BuilderModel {
            realtime_start: spec_opt_encode(self.realtime_start),
            realtime_end: spec_opt_encode(self.realtime_end),
            limit: spec_opt_u64(self.limit),
            offset: spec_opt_u64(self.offset),
            sort_order: spec_opt_sort_order(self.sort_order),
            observation_start: spec_opt_encode(self.observation_start),
            observation_end: spec_opt_encode(self.observation_end),
            units: spec_opt_units(self.units),
            frequency: spec_opt_frequency(self.frequency),
            aggregation_method: spec_opt_aggregation(self.aggregation_method),
            output_type: spec_opt_output_type(self.output_type),
            vintage_dates: spec_opt_encode(self.vintage_dates),
        }
    }
}

impl ObservationBuilder {
    /// A builder with no option set.
    pub fn new() -> (r: ObservationBuilder)
        ensures
            r@ == empty_model(),
    {
        let r = ObservationBuilder {
            realtime_start: None,
            realtime_end: None,
            limit: None,
            offset: None,
            sort_order: None,
            observation_start: None,
            observation_end: None,
            units: None,
            frequency: None,
            aggregation_method: None,
            output_type: None,
            vintage_dates: None,
        };
        proof {
            assert(r@ =~= empty_model());
        }
        r
    }

    /// Sets the start of the real-time period.
    pub fn realtime_start(self, start_date: &str) -> (r: Self)
        ensures
            r@ == set_option(
                self@,
                BuilderOption::RealtimeStart,
                spec_percent_encode(start_date@),
            ),
    {
        let r = ObservationBuilder { realtime_start: Some(start_date.to_owned()), ..self };
        proof {
            assert(r@ =~= set_option(
                self@,
                BuilderOption::RealtimeStart,
                spec_percent_encode(start_date@),
            ));
        }
        r
    }

    /// Sets the end of the real-time period.
    pub fn realtime_end(self, end_date: &str) -> (r: Self)
        ensures
            r@ == set_option(self@, BuilderOption::RealtimeEnd, spec_percent_encode(end_date@)),
    {
        let r = ObservationBuilder { realtime_end: Some(end_date.to_owned()), ..self };
        proof {
            assert(r@ =~= set_option(
                self@,
                BuilderOption::RealtimeEnd,
                spec_percent_encode(end_date@),
            ));
        }
        r
    }

    /// Sets the greatest number of observations to return.
    pub fn limit(self, count: u64) -> (r: Self)
        ensures
            r@ == set_option(self@, BuilderOption::Limit, spec_decimal(count as int)),
    {
        let r = ObservationBuilder { limit: Some(count), ..self };
        proof {
            assert(r@ =~= set_option(self@, BuilderOption::Limit, spec_decimal(count as int)));
        }
        r
    }

    /// Sets how many observations to skip from the start of the result.
    pub fn offset(self, count: u64) -> (r: Self)
        ensures
            r@ == set_option(self@, BuilderOption::Offset, spec_decimal(count as int)),
    {
        let r = ObservationBuilder { offset: Some(count), ..self };
        proof {
            assert(r@ =~= set_option(self@, BuilderOption::Offset, spec_decimal(count as int)));
        }
        r
    }

    /// Sets the order of the returned observations.
    pub fn sort_order(self, order: SortOrder) -> (r: Self)
        ensures
            r@ == set_option(self@, BuilderOption::SortOrder, order.spec_token()),
    {
        let r = ObservationBuilder { sort_order: Some(order), ..self };
        proof {
            assert(r@ =~= set_option(self@, BuilderOption::SortOrder, order.spec_token()));
        }
        r
    }

    /// Sets the first observation date to return.
    pub fn observation_start(self, start_date: &str) -> (r: Self)
        ensures
            r@ == set_option(
                self@,
                BuilderOption::ObservationStart,
                spec_percent_encode(start_date@),
            ),
    {
        let r = ObservationBuilder { observation_start: Some(start_date.to_owned()), ..self };
        proof {
            assert(r@ =~= set_option(
                self@,
                BuilderOption::ObservationStart,
                spec_percent_encode(start_date@),
            ));
        }
        r
    }

    /// Sets the last observation date to return.
    pub fn observation_end(self, end_date: &str) -> (r: Self)
        ensures
            r@ == set_option(
                self@,
                BuilderOption::ObservationEnd,
                spec_percent_encode(end_date@),
            ),
    {
        let r = ObservationBuilder { observation_end: Some(end_date.to_owned()), ..self };
        proof {
            assert(r@ =~= set_option(
                self@,
                BuilderOption::ObservationEnd,
                spec_percent_encode(end_date@),
            ));
        }
        r
    }

    /// Sets the requested transformation of the series values.
    pub fn units(self, units: ObservationUnits) -> (r: Self)
        ensures
            r@ == set_option(self@, BuilderOption::Units, units.spec_token()),
    {
        let r = ObservationBuilder { units: Some(units), ..self };
        proof {
            assert(r@ =~= set_option(self@, BuilderOption::Units, units.spec_token()));
        }
        r
    }

    /// Sets the requested sampling frequency.
    pub fn frequency(self, freq: ObservationFrequency) -> (r: Self)
        ensures
            r@ == set_option(self@, BuilderOption::Frequency, freq.spec_token()),
    {
        let r = ObservationBuilder { frequency: Some(freq), ..self };
        proof {
            assert(r@ =~= set_option(self@, BuilderOption::Frequency, freq.spec_token()));
        }
        r
    }

    /// Sets the aggregation method used with a lower frequency.
    pub fn aggregation_method(self, method: AggregationMethod) -> (r: Self)
        ensures
            r@ == set_option(self@, BuilderOption::AggregationMethod, method.spec_token()),
    {
        let r = ObservationBuilder { aggregation_method: Some(method), ..self };
        proof {
            assert(r@ =~= set_option(
                self@,
                BuilderOption::AggregationMethod,
                method.spec_token(),
            ));
        }
        r
    }

    /// Sets which vintage information to report.
    pub fn output_type(self, output: OutputType) -> (r: Self)
        ensures
            r@ == set_option(self@, BuilderOption::OutputType, output.spec_token()),
    {
        let r = ObservationBuilder { output_type: Some(output), ..self };
        proof {
            assert(r@ =~= set_option(self@, BuilderOption::OutputType, output.spec_token()));
        }
        r
    }

    /// Sets the comma-separated list of vintage dates.
    pub fn vintage_dates(self, dates: &str) -> (r: Self)
        ensures
            r@ == set_option(self@, BuilderOption::VintageDates, spec_percent_encode(dates@)),
    {
        let r = ObservationBuilder { vintage_dates: Some(dates.to_owned()), ..self };
        proof {
            assert(r@ =~= set_option(
                self@,
                BuilderOption::VintageDates,
                spec_percent_encode(dates@),
            ));
        }
        r
    }

    /// Renders the set options as a query fragment: the set options in
    /// declaration order, each as `&key=value`, free-form values
    /// percent-encoded.
    pub fn options(&self) -> (r: String)
        ensures
            r@ == spec_options(self@),
    {
        let mut out = String::new();
        append_value_part(&mut out, "&realtime_start=", &self.realtime_start);
        proof {
            lemma_add_empty_left(opt_part("&realtime_start="@, self@.realtime_start));
        }
        append_value_part(&mut out, "&realtime_end=", &self.realtime_end);
        append_u64_part(&mut out, "&limit=", self.limit);
        append_u64_part(&mut out, "&offset=", self.offset);
        let sort_tok = match &self.sort_order {
            Some(o) => Some(o.token()),
            None => None,
        };
        append_token_part(&mut out, "&sort_order=", sort_tok);
        append_value_part(&mut out, "&observation_start=", &self.observation_start);
        append_value_part(&mut out, "&observation_end=", &self.observation_end);
        let units_tok = match &self.units {
            Some(u) => Some(u.token()),
            None => None,
        };
        append_token_part(&mut out, "&units=", units_tok);
        let freq_tok = match &self.frequency {
            Some(f) => Some(f.token()),
            None => None,
        };
        append_token_part(&mut out, "&frequency=", freq_tok);
        let agg_tok = match &self.aggregation_method {
            Some(a) => Some(a.token()),
            None => None,
        };
        append_token_part(&mut out, "&aggregation_method=", agg_tok);
        let output_tok = match &self.output_type {
            Some(t) => Some(t.token()),
            None => None,
        };
        append_token_part(&mut out, "&output_type=", output_tok);
        append_value_part(&mut out, "&vintage_dates=", &self.vintage_dates);
        proof {
            assert(out@ == spec_options(self@));
        }
        out
    }
}

/// Setting the same option twice keeps only the last value: the earlier
/// value leaves no trace in the builder's state, so no key is ever
/// duplicated in the rendered fragment.
pub proof fn lemma_set_option_overwrites(
    m: BuilderModel,
    o: BuilderOption,
    v1: Seq<char>,
    v2: Seq<char>,
)
    ensures
        set_option(set_option(m, o, v1), o, v2) == set_option(m, o, v2),
{
    assert(set_option(set_option(m, o, v1), o, v2) =~= set_option(m, o, v2));
}

/// Setters of distinct options commute: the builder's state, and with it
/// the rendered fragment, is independent of the order of the calls.
pub proof fn lemma_set_option_commutes(
    m: BuilderModel,
    o1: BuilderOption,
    v1: Seq<char>,
    o2: BuilderOption,
    v2: Seq<char>,
)
    requires
        o1 != o2,
    ensures
        set_option(set_option(m, o1, v1), o2, v2) == set_option(set_option(m, o2, v2), o1, v1),
{
    assert(set_option(set_option(m, o1, v1), o2, v2) =~= set_option(set_option(m, o2, v2), o1, v1));
}

/// Rendering is pure: what `options` returns is a function of the
/// builder's state alone, so two renders of an unmodified builder are
/// byte-identical.
pub proof fn lemma_options_pure(b: ObservationBuilder, r1: Seq<char>, r2: Seq<char>)
    requires
        r1 == spec_options(b@),
        r2 == spec_options(b@),
    ensures
        r1 == r2,
{
}

/// An empty builder renders to the empty fragment, so appending it to a
/// URL leaves the URL unchanged.
pub proof fn lemma_empty_options(m: BuilderModel)
    requires
        m == empty_model(),
    ensures
        spec_options(m).len() == 0,
{
    assert(spec_options(m) =~= Seq::<char>::empty());
}

} // verus!
