use vstd::prelude::*;
use vstd::string::*;
use crate::models::{SortBy, SortDirection};
use crate::wire::{
    decimal, decimal_string, lemma_values_for_absent, lemma_values_for_concat, pairs_view, values_for,
    PairView,
};

verus! {

/// The most location filters that a request carries.
pub const MAX_LOCATIONS: usize = 8;

/// The filters given as free text.
#[derive(Clone, Copy, Debug, PartialEq, Eq, Structural)]
pub enum TextField {
    Category,
    What,
    WhatAnd,
    WhatPhrase,
    WhatOr,
    WhatExclude,
    TitleOnly,
    Place,
    Company,
}

/// The filters given as a number.
#[derive(Clone, Copy, Debug, PartialEq, Eq, Structural)]
pub enum NumberField {
    Months,
    Distance,
    ResultsPerPage,
    MaxDaysOld,
    SalaryMin,
    SalaryMax,
}

/// The filters that are either switched on or absent.
#[derive(Clone, Copy, Debug, PartialEq, Eq, Structural)]
pub enum Flag {
    SalaryIncludeUnknown,
    FullTime,
    PartTime,
    Contract,
    Permanent,
}

/// The query keys other than the location filters.
#[derive(Clone, Copy, Debug, PartialEq, Eq, Structural)]
pub enum Key {
    Text(TextField),
    Number(NumberField),
    Flag(Flag),
    SortDir,
    SortBy,
}

impl Key {
    /// The key as the query writes it.
    pub open spec fn key_name(self) -> Seq<char> {
        match self {
            Key::Text(TextField::Category) => "category"@,
            Key::Text(TextField::What) => "what"@,
            Key::Text(TextField::WhatAnd) => "what_and"@,
            Key::Text(TextField::WhatPhrase) => "what_phrase"@,
            Key::Text(TextField::WhatOr) => "what_or"@,
            Key::Text(TextField::WhatExclude) => "what_exclude"@,
            Key::Text(TextField::TitleOnly) => "title_only"@,
            Key::Text(TextField::Place) => "where"@,
            Key::Text(TextField::Company) => "company"@,
            Key::Number(NumberField::Months) => "months"@,
            Key::Number(NumberField::Distance) => "distance"@,
            Key::Number(NumberField::ResultsPerPage) => "results_per_page"@,
            Key::Number(NumberField::MaxDaysOld) => "max_days_old"@,
            Key::Number(NumberField::SalaryMin) => "salary_min"@,
            Key::Number(NumberField::SalaryMax) => "salary_max"@,
            Key::Flag(Flag::SalaryIncludeUnknown) => "salary_include_unknown"@,
            Key::Flag(Flag::FullTime) => "full_time"@,
            Key::Flag(Flag::PartTime) => "part_time"@,
            Key::Flag(Flag::Contract) => "contract"@,
            Key::Flag(Flag::Permanent) => "permanent"@,
            Key::SortDir => "sort_dir"@,
            Key::SortBy => "sort_by"@,
        }
    }

    /// The key as the query writes it.
    pub fn name(&self) -> (r: &'static str)
        ensures
            r@ == self.key_name(),
    {
        match self {
            Key::Text(TextField::Category) => "category",
            Key::Text(TextField::What) => "what",
            Key::Text(TextField::WhatAnd) => "what_and",
            Key::Text(TextField::WhatPhrase) => "what_phrase",
            Key::Text(TextField::WhatOr) => "what_or",
            Key::Text(TextField::WhatExclude) => "what_exclude",
            Key::Text(TextField::TitleOnly) => "title_only",
            Key::Text(TextField::Place) => "where",
            Key::Text(TextField::Company) => "company",
            Key::Number(NumberField::Months) => "months",
            Key::Number(NumberField::Distance) => "distance",
            Key::Number(NumberField::ResultsPerPage) => "results_per_page",
            Key::Number(NumberField::MaxDaysOld) => "max_days_old",
            Key::Number(NumberField::SalaryMin) => "salary_min",
            Key::Number(NumberField::SalaryMax) => "salary_max",
            Key::Flag(Flag::SalaryIncludeUnknown) => "salary_include_unknown",
            Key::Flag(Flag::FullTime) => "full_time",
            Key::Flag(Flag::PartTime) => "part_time",
            Key::Flag(Flag::Contract) => "contract",
            Key::Flag(Flag::Permanent) => "permanent",
            Key::SortDir => "sort_dir",
            Key::SortBy => "sort_by",
        }
    }
}

/// The order in which the keys stand in a query, after the location filters.
pub open spec fn key_order() -> Seq<Key> {
    seq![
        Key::Text(TextField::Category),
        Key::Text(TextField::What),
        Key::Number(NumberField::Months),
        Key::Text(TextField::WhatAnd),
        Key::Text(TextField::WhatPhrase),
        Key::Text(TextField::WhatOr),
        Key::Text(TextField::WhatExclude),
        Key::Text(TextField::TitleOnly),
        Key::Text(TextField::Place),
        Key::Flag(Flag::SalaryIncludeUnknown),
        Key::Flag(Flag::FullTime),
        Key::Flag(Flag::PartTime),
        Key::Flag(Flag::Contract),
        Key::Flag(Flag::Permanent),
        Key::Text(TextField::Company),
        Key::Number(NumberField::Distance),
        Key::Number(NumberField::ResultsPerPage),
        Key::Number(NumberField::MaxDaysOld),
        Key::Number(NumberField::SalaryMin),
        Key::Number(NumberField::SalaryMax),
        Key::SortDir,
        Key::SortBy,
    ]
}

fn key_list() -> (r: Vec<Key>)
    ensures
        r@ == key_order(),
{
    let r = vec![
        Key::Text(TextField::Category),
        Key::Text(TextField::What),
        Key::Number(NumberField::Months),
        Key::Text(TextField::WhatAnd),
        Key::Text(TextField::WhatPhrase),
        Key::Text(TextField::WhatOr),
        Key::Text(TextField::WhatExclude),
        Key::Text(TextField::TitleOnly),
        Key::Text(TextField::Place),
        Key::Flag(Flag::SalaryIncludeUnknown),
        Key::Flag(Flag::FullTime),
        Key::Flag(Flag::PartTime),
        Key::Flag(Flag::Contract),
        Key::Flag(Flag::Permanent),
        Key::Text(TextField::Company),
        Key::Number(NumberField::Distance),
        Key::Number(NumberField::ResultsPerPage),
        Key::Number(NumberField::MaxDaysOld),
        Key::Number(NumberField::SalaryMin),
        Key::Number(NumberField::SalaryMax),
        Key::SortDir,
        Key::SortBy,
    ];
    assert(r@ =~= key_order());
    r
}

/// What a parameter bag holds, with text as character sequences.
pub struct ParametersView {
    pub locations: Seq<Seq<char>>,
    pub category: Option<Seq<char>>,
    pub what: Option<Seq<char>>,
    pub months: Option<usize>,
    pub what_and: Option<Seq<char>>,
    pub what_phrase: Option<Seq<char>>,
    pub what_or: Option<Seq<char>>,
    pub what_exclude: Option<Seq<char>>,
    pub title_only: Option<Seq<char>>,
    pub place: Option<Seq<char>>,
    pub salary_include_unknown: bool,
    pub full_time: bool,
    pub part_time: bool,
    pub contract: bool,
    pub permanent: bool,
    pub company: Option<Seq<char>>,
    pub distance: Option<usize>,
    pub results_per_page: Option<usize>,
    pub max_days_old: Option<usize>,
    pub salary_min: Option<usize>,
    pub salary_max: Option<usize>,
    pub sort_dir: Option<SortDirection>,
    pub sort_by: Option<SortBy>,
}

/// The key of the location filter in slot `i`: `location0`, `location1`, ...
pub open spec fn location_key(i: nat) -> Seq<char> {
    "location"@ + decimal(i)
}

/// The location filters as query pairs, slot by slot.
pub open spec fn location_pairs(locations: Seq<Seq<char>>) -> Seq<PairView> {
    Seq::new(locations.len(), |i: int| (location_key(i as nat), locations[i]))
}

/// A value that is present as a one-element sequence; an absent one as the empty sequence.
pub open spec fn opt_seq(o: Option<Seq<char>>) -> Seq<Seq<char>> {
    match o {
        Some(v) => seq![v],
        None => seq![],
    }
}

/// The pairs for the keys of `keys` whose value is set, in the order of `keys`.
pub open spec fn key_pairs(keys: Seq<Key>, p: ParametersView) -> Seq<PairView>
    decreases keys.len(),
{
    if keys.len() == 0 {
        seq![]
    } else {
        let k = keys.last();
        key_pairs(keys.drop_last(), p) + match p.value_of(k) {
            Some(v) => seq![(k.key_name(), v)],
            None => seq![],
        }
    }
}

impl ParametersView {
    /// A bag with no filter set.
    pub open spec fn empty() -> ParametersView {
        ParametersView {
            locations: seq![],
            category: None,
            what: None,
            months: None,
            what_and: None,
            what_phrase: None,
            what_or: None,
            what_exclude: None,
            title_only: None,
            place: None,
            salary_include_unknown: false,
            full_time: false,
            part_time: false,
            contract: false,
            permanent: false,
            company: None,
            distance: None,
            results_per_page: None,
            max_days_old: None,
            salary_min: None,
            salary_max: None,
            sort_dir: None,
            sort_by: None,
        }
    }

    pub open spec fn text(self, f: TextField) -> Option<Seq<char>> {
        match f {
            TextField::Category => self.category,
            TextField::What => self.what,
            TextField::WhatAnd => self.what_and,
            TextField::WhatPhrase => self.what_phrase,
            TextField::WhatOr => self.what_or,
            TextField::WhatExclude => self.what_exclude,
            TextField::TitleOnly => self.title_only,
            TextField::Place => self.place,
            TextField::Company => self.company,
        }
    }

    /// The bag with text filter `f` set to `v`.
    pub open spec fn with_text(self, f: TextField, v: Seq<char>) -> ParametersView {
        match f {
            TextField::Category => ParametersView { category: Some(v), ..self },
            TextField::What => ParametersView { what: Some(v), ..self },
            TextField::WhatAnd => ParametersView { what_and: Some(v), ..self },
            TextField::WhatPhrase => ParametersView { what_phrase: Some(v), ..self },
            TextField::WhatOr => ParametersView { what_or: Some(v), ..self },
            TextField::WhatExclude => ParametersView { what_exclude: Some(v), ..self },
            TextField::TitleOnly => ParametersView { title_only: Some(v), ..self },
            TextField::Place => ParametersView { place: Some(v), ..self },
            TextField::Company => ParametersView { company: Some(v), ..self },
        }
    }

    pub open spec fn number(self, f: NumberField) -> Option<usize> {
        match f {
            NumberField::Months => self.months,
            NumberField::Distance => self.distance,
            NumberField::ResultsPerPage => self.results_per_page,
            NumberField::MaxDaysOld => self.max_days_old,
            NumberField::SalaryMin => self.salary_min,
            NumberField::SalaryMax => self.salary_max,
        }
    }

    /// The bag with number filter `f` set to `n`.
    pub open spec fn with_number(self, f: NumberField, n: usize) -> ParametersView {
        match f {
            NumberField::Months => ParametersView { months: Some(n), ..self },
            NumberField::Distance => ParametersView { distance: Some(n), ..self },
            NumberField::ResultsPerPage => ParametersView { results_per_page: Some(n), ..self },
            NumberField::MaxDaysOld => ParametersView { max_days_old: Some(n), ..self },
            NumberField::SalaryMin => ParametersView { salary_min: Some(n), ..self },
            NumberField::SalaryMax => ParametersView { salary_max: Some(n), ..self },
        }
    }

    pub open spec fn flag(self, f: Flag) -> bool {
        match f {
            Flag::SalaryIncludeUnknown => self.salary_include_unknown,
            Flag::FullTime => self.full_time,
            Flag::PartTime => self.part_time,
            Flag::Contract => self.contract,
            Flag::Permanent => self.permanent,
        }
    }

    /// The bag with flag `f` switched on.
    pub open spec fn with_flag(self, f: Flag) -> ParametersView {
        match f {
            Flag::SalaryIncludeUnknown => ParametersView { salary_include_unknown: true, ..self },
            Flag::FullTime => ParametersView { full_time: true, ..self },
            Flag::PartTime => ParametersView { part_time: true, ..self },
            Flag::Contract => ParametersView { contract: true, ..self },
            Flag::Permanent => ParametersView { permanent: true, ..self },
        }
    }

    /// The bag with one more location filter, unless all slots are taken.
    pub open spec fn with_location(self, l: Seq<char>) -> ParametersView {
        if self.locations.len() < MAX_LOCATIONS {
            ParametersView { locations: self.locations.push(l), ..self }
        } else {
            self
        }
    }

    /// The value sent under key `k`, if that filter is set.
    pub open spec fn value_of(self, k: Key) -> Option<Seq<char>> {
        match k {
            Key::Text(f) => self.text(f),
            Key::Number(f) => match self.number(f) {
                Some(n) => Some(decimal(n as nat)),
                None => None,
            },
            Key::Flag(f) => if self.flag(f) {
                Some("1"@)
            } else {
                None
            },
            Key::SortDir => match self.sort_dir {
                Some(d) => Some(d.wire_name()),
                None => None,
            },
            Key::SortBy => match self.sort_by {
                Some(s) => Some(s.wire_name()),
                None => None,
            },
        }
    }

    /// The query pairs of the bag: the location filters by slot, then each set filter.
    pub open spec fn query(self) -> Seq<PairView> {
        location_pairs(self.locations) + key_pairs(key_order(), self)
    }
}

/// The text of an optional string.
pub open spec fn opt_view(o: Option<String>) -> Option<Seq<char>> {
    match o {
        Some(s) => Some(s@),
        None => None,
    }
}

/// The optional query parameters of a request. A filter that is not set is not sent.
#[derive(Debug)]
pub struct Parameters {
    pub locations: Vec<String>,
    pub category: Option<String>,
    pub what: Option<String>,
    pub months: Option<usize>,
    pub what_and: Option<String>,
    pub what_phrase: Option<String>,
    pub what_or: Option<String>,
    pub what_exclude: Option<String>,
    pub title_only: Option<String>,
    /// The geographic centre, sent under the key `where`.
    pub place: Option<String>,
    pub salary_include_unknown: bool,
    pub full_time: bool,
    pub part_time: bool,
    pub contract: bool,
    pub permanent: bool,
    pub company: Option<String>,
    pub distance: Option<usize>,
    pub results_per_page: Option<usize>,
    pub max_days_old: Option<usize>,
    pub salary_min: Option<usize>,
    pub salary_max: Option<usize>,
    pub sort_dir: Option<SortDirection>,
    pub sort_by: Option<SortBy>,
}

impl View for Parameters {
    type V = ParametersView;

    open spec fn view(&self) -> ParametersView {
        ParametersView {
            locations: self.locations@.map_values(|s: String| s@),
            category: opt_view(self.category),
            what: opt_view(self.what),
            months: self.months,
            what_and: opt_view(self.what_and),
            what_phrase: opt_view(self.what_phrase),
            what_or: opt_view(self.what_or),
            what_exclude: opt_view(self.what_exclude),
            title_only: opt_view(self.title_only),
            place: opt_view(self.place),
            salary_include_unknown: self.salary_include_unknown,
            full_time: self.full_time,
            part_time: self.part_time,
            contract: self.contract,
            permanent: self.permanent,
            company: opt_view(self.company),
            distance: self.distance,
            results_per_page: self.results_per_page,
            max_days_old: self.max_days_old,
            salary_min: self.salary_min,
            salary_max: self.salary_max,
            sort_dir: self.sort_dir,
            sort_by: self.sort_by,
        }
    }
}

impl Parameters {
    /// A bag with no filter set.
    pub fn new() -> (r: Parameters)
        ensures
            r@ == ParametersView::empty(),
    {
        let r = Parameters {
            locations: Vec::new(),
            category: None,
            what: None,
            months: None,
            what_and: None,
            what_phrase: None,
            what_or: None,
            what_exclude: None,
            title_only: None,
            place: None,
            salary_include_unknown: false,
            full_time: false,
            part_time: false,
            contract: false,
            permanent: false,
            company: None,
            distance: None,
            results_per_page: None,
            max_days_old: None,
            salary_min: None,
            salary_max: None,
            sort_dir: None,
            sort_by: None,
        };
        assert(r@.locations =~= seq![]);
        r
    }

    /// Sets text filter `f` to `v`, replacing an earlier value.
    pub fn set_text(&mut self, f: TextField, v: &str)
        ensures
            final(self)@ == old(self)@.with_text(f, v@),
    {
        let s = Some(String::from_str(v));
        match f {
            TextField::Category => self.category = s,
            TextField::What => self.what = s,
            TextField::WhatAnd => self.what_and = s,
            TextField::WhatPhrase => self.what_phrase = s,
            TextField::WhatOr => self.what_or = s,
            TextField::WhatExclude => self.what_exclude = s,
            TextField::TitleOnly => self.title_only = s,
            TextField::Place => self.place = s,
            TextField::Company => self.company = s,
        }
    }

    /// Sets number filter `f` to `n`, replacing an earlier value.
    pub fn set_number(&mut self, f: NumberField, n: usize)
        ensures
            final(self)@ == old(self)@.with_number(f, n),
    {
        match f {
            NumberField::Months => self.months = Some(n),
            NumberField::Distance => self.distance = Some(n),
            NumberField::ResultsPerPage => self.results_per_page = Some(n),
            NumberField::MaxDaysOld => self.max_days_old = Some(n),
            NumberField::SalaryMin => self.salary_min = Some(n),
            NumberField::SalaryMax => self.salary_max = Some(n),
        }
    }

    /// Switches flag `f` on. A flag cannot be switched off again.
    pub fn set_flag(&mut self, f: Flag)
        ensures
            final(self)@ == old(self)@.with_flag(f),
    {
        match f {
            Flag::SalaryIncludeUnknown => self.salary_include_unknown = true,
            Flag::FullTime => self.full_time = true,
            Flag::PartTime => self.part_time = true,
            Flag::Contract => self.contract = true,
            Flag::Permanent => self.permanent = true,
        }
    }

    /// Sets the order of search results.
    pub fn set_sort_by(&mut self, s: SortBy)
        ensures
            final(self)@ == (ParametersView { sort_by: Some(s), ..old(self)@ }),
    {
        self.sort_by = Some(s);
    }

    /// Sets the direction of the order of search results.
    pub fn set_sort_dir(&mut self, d: SortDirection)
        ensures
            final(self)@ == (ParametersView { sort_dir: Some(d), ..old(self)@ }),
    {
        self.sort_dir = Some(d);
    }

    /// Adds a location filter in the next free slot; once all slots are taken, does nothing.
    pub fn add_location(&mut self, l: &str)
        ensures
            final(self)@ == old(self)@.with_location(l@),
    {
        if self.locations.len() < MAX_LOCATIONS {
            let ghost before = self.locations@;
            self.locations.push(String::from_str(l));
            assert(self.locations@.map_values(|s: String| s@) =~= before.map_values(
                |s: String| s@,
            ).push(l@));
        }
    }

    /// The value sent under key `k`, if that filter is set.
    fn value_text(&self, k: Key) -> (r: Option<String>)
        ensures
            opt_view(r) == self@.value_of(k),
    {
        match k {
            Key::Text(f) => {
                let t = match f {
                    TextField::Category => &self.category,
                    TextField::What => &self.what,
                    TextField::WhatAnd => &self.what_and,
                    TextField::WhatPhrase => &self.what_phrase,
                    TextField::WhatOr => &self.what_or,
                    TextField::WhatExclude => &self.what_exclude,
                    TextField::TitleOnly => &self.title_only,
                    TextField::Place => &self.place,
                    TextField::Company => &self.company,
                };
                match t {
                    Some(s) => Some(s.clone()),
                    None => None,
                }
            },
            Key::Number(f) => {
                let n = match f {
                    NumberField::Months => self.months,
                    NumberField::Distance => self.distance,
                    NumberField::ResultsPerPage => self.results_per_page,
                    NumberField::MaxDaysOld => self.max_days_old,
                    NumberField::SalaryMin => self.salary_min,
                    NumberField::SalaryMax => self.salary_max,
                };
                match n {
                    Some(n) => Some(decimal_string(n)),
                    None => None,
                }
            },
            Key::Flag(f) => {
                let on = match f {
                    Flag::SalaryIncludeUnknown => self.salary_include_unknown,
                    Flag::FullTime => self.full_time,
                    Flag::PartTime => self.part_time,
                    Flag::Contract => self.contract,
                    Flag::Permanent => self.permanent,
                };
                if on {
                    Some(String::from_str("1"))
                } else {
                    None
                }
            },
            Key::SortDir => match self.sort_dir {
                Some(d) => Some(d.to_string()),
                None => None,
            },
            Key::SortBy => match self.sort_by {
                Some(s) => Some(s.to_string()),
                None => None,
            },
        }
    }

    /// The query pairs of the bag: the location filters as `location0`, `location1`, ...
    /// in the order they were added, then each filter that is set, under its key.
    pub fn to_query(&self) -> (r: Vec<(String, String)>)
        ensures
            pairs_view(r@) == self@.query(),
    {
        let ghost p = self@;
        let mut out: Vec<(String, String)> = Vec::new();
        let mut i: usize = 0;
        while i < self.locations.len()
            invariant
                p == self@,
                i <= self.locations@.len(),
                pairs_view(out@) =~= location_pairs(p.locations.take(i as int)),
            decreases self.locations@.len() - i,
        {
            let mut key = String::from_str("location");
            let idx = decimal_string(i);
            key.append(idx.as_str());
            let value = self.locations[i].clone();
            let ghost before = out@;
            out.push((key, value));
            assert(pairs_view(out@) =~= pairs_view(before).push((key@, value@)));
            assert(location_pairs(p.locations.take(i + 1)) =~= location_pairs(
                p.locations.take(i as int),
            ).push((location_key(i as nat), p.locations[i as int])));
            i = i + 1;
        }
        assert(p.locations.take(p.locations.len() as int) =~= p.locations);
        let keys = key_list();
        let mut j: usize = 0;
        while j < keys.len()
            invariant
                p == self@,
                keys@ == key_order(),
                j <= keys@.len(),
                pairs_view(out@) == location_pairs(p.locations) + key_pairs(
                    key_order().take(j as int),
                    p,
                ),
            decreases keys@.len() - j,
        {
            let k = keys[j];
            let ghost before = out@;
            let v = self.value_text(k);
            assert(key_order().take(j + 1).drop_last() =~= key_order().take(j as int));
            match v {
                Some(v) => {
                    let name = String::from_str(k.name());
                    out.push((name, v));
                    assert(pairs_view(out@) =~= pairs_view(before).push((name@, v@)));
                },
                None => {},
            }
            proof {
                let loc = location_pairs(p.locations);
                let prefix = key_pairs(key_order().take(j as int), p);
                let step = match p.value_of(k) {
                    Some(x) => seq![(k.key_name(), x)],
                    None => Seq::<PairView>::empty(),
                };
                assert(key_pairs(key_order().take(j + 1), p) == prefix + step);
                assert(loc + (prefix + step) =~= (loc + prefix) + step);
                assert(pairs_view(out@) =~= (loc + prefix) + step);
            }
            j = j + 1;
        }
        assert(key_order().take(key_order().len() as int) =~= key_order());
        out
    }
}

impl Default for Parameters {
    fn default() -> (r: Parameters)
        ensures
            r@ == ParametersView::empty(),
    {
        Parameters::new()
    }
}

impl Key {
    /// Where the key stands in `key_order`.
    pub open spec fn position(self) -> int {
        match self {
            Key::Text(TextField::Category) => 0,
            Key::Text(TextField::What) => 1,
            Key::Number(NumberField::Months) => 2,
            Key::Text(TextField::WhatAnd) => 3,
            Key::Text(TextField::WhatPhrase) => 4,
            Key::Text(TextField::WhatOr) => 5,
            Key::Text(TextField::WhatExclude) => 6,
            Key::Text(TextField::TitleOnly) => 7,
            Key::Text(TextField::Place) => 8,
            Key::Flag(Flag::SalaryIncludeUnknown) => 9,
            Key::Flag(Flag::FullTime) => 10,
            Key::Flag(Flag::PartTime) => 11,
            Key::Flag(Flag::Contract) => 12,
            Key::Flag(Flag::Permanent) => 13,
            Key::Text(TextField::Company) => 14,
            Key::Number(NumberField::Distance) => 15,
            Key::Number(NumberField::ResultsPerPage) => 16,
            Key::Number(NumberField::MaxDaysOld) => 17,
            Key::Number(NumberField::SalaryMin) => 18,
            Key::Number(NumberField::SalaryMax) => 19,
            Key::SortDir => 20,
            Key::SortBy => 21,
        }
    }
}

/// Each key stands in `key_order` exactly once.
proof fn lemma_key_order_positions()
    ensures
        key_order().len() == 22,
        forall|k: Key|
            0 <= #[trigger] k.position() < key_order().len() && key_order()[k.position()] == k,
        forall|i: int| 0 <= i < key_order().len() ==> (#[trigger] key_order()[i]).position() == i,
{
}

/// The position of the key that a name names, read from its length and a few characters.
pub(crate) open spec fn position_of_name(s: Seq<char>) -> int {
    if s.len() == 4 {
        1
    } else if s.len() == 5 {
        8
    } else if s.len() == 6 {
        2
    } else if s.len() == 7 {
        if s[0] == 'w' {
            5
        } else if s[0] == 'c' {
            14
        } else {
            21
        }
    } else if s.len() == 8 {
        if s[0] == 'w' {
            3
        } else if s[0] == 'd' {
            15
        } else if s[0] == 's' {
            20
        } else if s[1] == 'a' {
            0
        } else {
            12
        }
    } else if s.len() == 9 {
        if s[0] == 'f' {
            10
        } else if s[1] == 'a' {
            11
        } else {
            13
        }
    } else if s.len() == 10 {
        if s[0] == 't' {
            7
        } else if s[8] == 'i' {
            18
        } else {
            19
        }
    } else if s.len() == 11 {
        4
    } else if s.len() == 12 {
        if s[0] == 'w' {
            6
        } else {
            17
        }
    } else if s.len() == 16 {
        16
    } else {
        9
    }
}

/// A key's name tells its position, and begins neither like a location filter's nor like a
/// credential's.
pub(crate) proof fn lemma_key_name_shape(k: Key)
    ensures
        position_of_name(k.key_name()) == k.position(),
        k.key_name().len() > 0,
        k.key_name()[0] != 'l',
        k.key_name()[0] != 'a',
{
    reveal_strlit("category");
    reveal_strlit("what");
    reveal_strlit("what_and");
    reveal_strlit("what_phrase");
    reveal_strlit("what_or");
    reveal_strlit("what_exclude");
    reveal_strlit("title_only");
    reveal_strlit("where");
    reveal_strlit("company");
    reveal_strlit("months");
    reveal_strlit("distance");
    reveal_strlit("results_per_page");
    reveal_strlit("max_days_old");
    reveal_strlit("salary_min");
    reveal_strlit("salary_max");
    reveal_strlit("salary_include_unknown");
    reveal_strlit("full_time");
    reveal_strlit("part_time");
    reveal_strlit("contract");
    reveal_strlit("permanent");
    reveal_strlit("sort_dir");
    reveal_strlit("sort_by");
}

/// Two keys with the same name are the same key.
proof fn lemma_key_name_injective(a: Key, b: Key)
    requires
        a.key_name() == b.key_name(),
    ensures
        a == b,
{
    lemma_key_name_shape(a);
    lemma_key_name_shape(b);
}

/// No key is named like a location filter.
proof fn lemma_key_name_not_location(k: Key, i: nat)
    ensures
        location_key(i) != k.key_name(),
{
    lemma_key_name_shape(k);
    reveal_strlit("location");
    assert(location_key(i)[0] == 'l');
}

/// What a prefix of `key_order` sends under the name of `k`.
proof fn lemma_key_pairs_values(p: ParametersView, k: Key, m: int)
    requires
        0 <= m <= key_order().len(),
    ensures
        values_for(key_pairs(key_order().take(m), p), k.key_name()) == if k.position() < m {
            opt_seq(p.value_of(k))
        } else {
            Seq::<Seq<char>>::empty()
        },
    decreases m,
{
    lemma_key_order_positions();
    let name = k.key_name();
    if m == 0 {
        assert(key_order().take(0) =~= Seq::<Key>::empty());
    } else {
        let keys = key_order().take(m);
        assert(keys.drop_last() =~= key_order().take(m - 1));
        lemma_key_pairs_values(p, k, m - 1);
        let last = key_order()[m - 1];
        let step = match p.value_of(last) {
            Some(v) => seq![(last.key_name(), v)],
            None => Seq::<PairView>::empty(),
        };
        assert(key_pairs(keys, p) == key_pairs(key_order().take(m - 1), p) + step);
        lemma_values_for_concat(key_pairs(key_order().take(m - 1), p), step, name);
        let before = values_for(key_pairs(key_order().take(m - 1), p), name);
        let empty = Seq::<Seq<char>>::empty();
        assert(values_for(Seq::<PairView>::empty(), name) == empty);
        assert(step.len() > 0 ==> step.drop_last() =~= Seq::<PairView>::empty());
        if last == k {
            assert(values_for(step, name) == opt_seq(p.value_of(k)));
            assert(empty + opt_seq(p.value_of(k)) =~= opt_seq(p.value_of(k)));
        } else {
            if last.key_name() == name {
                lemma_key_name_injective(last, k);
            }
            assert(values_for(step, name) == empty);
            assert(before + empty =~= before);
        }
    }
}

/// A bag with no filter set sends nothing.
pub proof fn lemma_empty_query()
    ensures
        ParametersView::empty().query() == Seq::<PairView>::empty(),
{
    let p = ParametersView::empty();
    assert forall|m: int| 0 <= m <= key_order().len() implies #[trigger] key_pairs(
        key_order().take(m),
        p,
    ) == Seq::<PairView>::empty() by {
        lemma_empty_key_pairs(m);
    }
    assert(key_order().take(key_order().len() as int) =~= key_order());
    assert(location_pairs(p.locations) =~= Seq::<PairView>::empty());
    assert(p.query() =~= Seq::<PairView>::empty());
}

proof fn lemma_empty_key_pairs(m: int)
    requires
        0 <= m <= key_order().len(),
    ensures
        key_pairs(key_order().take(m), ParametersView::empty()) == Seq::<PairView>::empty(),
    decreases m,
{
    if m > 0 {
        assert(key_order().take(m).drop_last() =~= key_order().take(m - 1));
        lemma_empty_key_pairs(m - 1);
        let k = key_order().take(m).last();
        assert(ParametersView::empty().value_of(k) is None);
        assert(Seq::<PairView>::empty() + Seq::<PairView>::empty() =~= Seq::<PairView>::empty());
    } else {
        assert(key_order().take(0) =~= Seq::<Key>::empty());
    }
}

/// Each filter other than the locations is sent under its own key once, with the value it
/// holds, when it is set; a filter that is not set is not sent at all.
pub proof fn lemma_query_sends_set_filters(p: ParametersView, k: Key)
    ensures
        values_for(p.query(), k.key_name()) == opt_seq(p.value_of(k)),
{
    let name = k.key_name();
    let locs = location_pairs(p.locations);
    lemma_values_for_concat(locs, key_pairs(key_order(), p), name);
    assert forall|i: int| 0 <= i < locs.len() implies (#[trigger] locs[i]).0 != name by {
        lemma_key_name_not_location(k, i as nat);
    }
    lemma_values_for_absent(locs, name);
    lemma_key_order_positions();
    lemma_key_pairs_values(p, k, 22);
    assert(key_order().take(22) =~= key_order());
    assert(Seq::<Seq<char>>::empty() + opt_seq(p.value_of(k)) =~= opt_seq(p.value_of(k)));
}

/// When a text filter is set twice, the later value is the one sent, and it is sent alone.
pub proof fn lemma_text_filter_last_value_sent(
    p: ParametersView,
    f: TextField,
    a: Seq<char>,
    b: Seq<char>,
)
    ensures
        values_for(p.with_text(f, a).with_text(f, b).query(), Key::Text(f).key_name()) == seq![b],
{
    lemma_query_sends_set_filters(p.with_text(f, a).with_text(f, b), Key::Text(f));
}

/// When a number filter is set twice, the later number is the one sent, in decimal, alone.
pub proof fn lemma_number_filter_last_value_sent(
    p: ParametersView,
    f: NumberField,
    a: usize,
    b: usize,
)
    ensures
        values_for(p.with_number(f, a).with_number(f, b).query(), Key::Number(f).key_name())
            == seq![decimal(b as nat)],
{
    lemma_query_sends_set_filters(p.with_number(f, a).with_number(f, b), Key::Number(f));
}

/// When the order of results or its direction is set twice, the later one is the one sent,
/// alone.
pub proof fn lemma_sort_last_value_sent(
    p: ParametersView,
    a: SortBy,
    b: SortBy,
    c: SortDirection,
    d: SortDirection,
)
    ensures
        values_for(
            (ParametersView {
                sort_by: Some(b),
                ..ParametersView { sort_by: Some(a), ..p }
            }).query(),
            Key::SortBy.key_name(),
        ) == seq![b.wire_name()],
        values_for(
            (ParametersView {
                sort_dir: Some(d),
                ..ParametersView { sort_dir: Some(c), ..p }
            }).query(),
            Key::SortDir.key_name(),
        ) == seq![d.wire_name()],
{
    lemma_query_sends_set_filters(
        ParametersView { sort_by: Some(b), ..ParametersView { sort_by: Some(a), ..p } },
        Key::SortBy,
    );
    lemma_query_sends_set_filters(
        ParametersView { sort_dir: Some(d), ..ParametersView { sort_dir: Some(c), ..p } },
        Key::SortDir,
    );
}

/// The bag after switching flag `f` on `n` times.
pub open spec fn with_flag_times(p: ParametersView, f: Flag, n: nat) -> ParametersView
    decreases n,
{
    if n == 0 {
        p
    } else {
        with_flag_times(p, f, (n - 1) as nat).with_flag(f)
    }
}

/// Switching a flag on any number of times, at least once, gives the same bag, and so the same
/// query, as switching it on once; the flag is then sent once, as `"1"`.
pub proof fn lemma_flag_idempotent(p: ParametersView, f: Flag, n: nat)
    requires
        n >= 1,
    ensures
        with_flag_times(p, f, n) == p.with_flag(f),
        with_flag_times(p, f, n).query() == p.with_flag(f).query(),
        values_for(with_flag_times(p, f, n).query(), Key::Flag(f).key_name()) == seq!["1"@],
    decreases n,
{
    assert(with_flag_times(p, f, 0) == p);
    if n > 1 {
        lemma_flag_idempotent(p, f, (n - 1) as nat);
    }
    assert(p.with_flag(f).with_flag(f) == p.with_flag(f)) by {
        match f {
            Flag::SalaryIncludeUnknown => {},
            Flag::FullTime => {},
            Flag::PartTime => {},
            Flag::Contract => {},
            Flag::Permanent => {},
        }
    }
    lemma_query_sends_set_filters(p.with_flag(f), Key::Flag(f));
}

/// The bag after adding each of `calls` as a location filter, in order.
pub open spec fn with_locations(p: ParametersView, calls: Seq<Seq<char>>) -> ParametersView
    decreases calls.len(),
{
    if calls.len() == 0 {
        p
    } else {
        with_locations(p, calls.drop_last()).with_location(calls.last())
    }
}

/// Adding locations one after another fills the slots in call order, so that slot `i` is sent
/// as `location{i}`; once all slots are taken, further locations are dropped, and neither the
/// slots already filled nor the other filters change.
pub proof fn lemma_locations_in_call_order(p: ParametersView, calls: Seq<Seq<char>>)
    requires
        p.locations.len() <= MAX_LOCATIONS,
    ensures
        ({
            let m: int = if p.locations.len() + calls.len() < MAX_LOCATIONS {
                (p.locations.len() + calls.len()) as int
            } else {
                MAX_LOCATIONS as int
            };
            let r = with_locations(p, calls);
            &&& r.locations == (p.locations + calls).take(m)
            &&& r == ParametersView { locations: r.locations, ..p }
            &&& forall|i: int|
                0 <= i < m ==> #[trigger] r.query()[i] == (location_key(i as nat), (p.locations
                    + calls)[i])
        }),
    decreases calls.len(),
{
    let all = p.locations + calls;
    if calls.len() == 0 {
        assert(all.take(p.locations.len() as int) =~= p.locations);
    } else {
        let init = calls.drop_last();
        lemma_locations_in_call_order(p, init);
        let prev = with_locations(p, init);
        assert((p.locations + init) =~= all.drop_last());
        if p.locations.len() + init.len() < MAX_LOCATIONS {
            assert(prev.locations.push(calls.last()) =~= all.take(all.len() as int));
        } else {
            assert(all.drop_last().take(MAX_LOCATIONS as int) =~= all.take(MAX_LOCATIONS as int));
        }
    }
    let r = with_locations(p, calls);
    assert forall|i: int| 0 <= i < r.locations.len() implies #[trigger] r.query()[i] == (
    location_key(i as nat), all[i]) by {
        assert(r.query()[i] == location_pairs(r.locations)[i]);
    }
}

} // verus!
