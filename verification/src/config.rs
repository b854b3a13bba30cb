//! Assembling a tuning collection from resolved configuration values: lists
//! of pitch strings, per-entry fret counts and names, a default fret count,
//! and an optional name of the tuning selected by default.

use vstd::assert_seqs_equal;
use vstd::prelude::*;
use vstd::string::StringExecFns;

use crate::theme::ThemeName;
use crate::tuning::spec_parse_pitch;
use crate::tuning::spec_pitch_sharp;
use crate::tuning::Pitch;
use crate::tuning::Tuning;
use crate::tuning::TuningCollection;
use crate::tuning::TuningError;
use crate::tuning::TuningErrorModel;
use crate::tuning::TuningModel;

verus! {

/// One configured tuning entry as the specifications see it.
pub ghost struct SchemaTuningModel {
    pub data: Seq<Seq<char>>,
    pub frets: Option<u8>,
    pub name: Option<Seq<char>>,
}

/// One tuning entry as the configuration loader resolves it: pitch strings,
/// an optional fret count, and an optional display name.
#[derive(Clone, Debug)]
pub struct SchemaTuning {
    pub data: Vec<String>,
    pub frets: Option<u8>,
    pub name: Option<String>,
}

impl View for SchemaTuning {
    type V = SchemaTuningModel;

    open spec fn view(&self) -> SchemaTuningModel {
        SchemaTuningModel {
            data: self.data@.map_values(|s: String| s@),
            frets: self.frets,
            name: match self.name {
                Some(ref nm) => Some(nm@),
                None => None,
            },
        }
    }
}

/// The whole resolved configuration as the specifications see it.
pub ghost struct SchemaConfigModel {
    pub default_frets: u8,
    pub default_tuning: Option<Seq<char>>,
    pub theme_name: ThemeName,
    pub tuning: Seq<SchemaTuningModel>,
}

/// The whole resolved configuration handed over by the loader.
#[derive(Clone, Debug)]
pub struct SchemaConfig {
    pub default_frets: u8,
    pub default_tuning: Option<String>,
    pub theme_name: ThemeName,
    pub tuning: Vec<SchemaTuning>,
}

impl View for SchemaConfig {
    type V = SchemaConfigModel;

    open spec fn view(&self) -> SchemaConfigModel {
        SchemaConfigModel {
            default_frets: self.default_frets,
            default_tuning: match self.default_tuning {
                Some(ref nm) => Some(nm@),
                None => None,
            },
            theme_name: self.theme_name,
            tuning: self.tuning@.map_values(|t: SchemaTuning| t@),
        }
    }
}

/// The validated configuration as the specifications see it.
pub ghost struct ConfigModel {
    pub tuning_items: Seq<TuningModel>,
    pub tuning_selected: int,
    pub theme_name: ThemeName,
}

/// The validated configuration: the assembled tuning collection and the
/// chosen theme.
#[derive(Clone, Debug)]
pub struct Config {
    pub tuning: TuningCollection,
    pub theme_name: ThemeName,
}

impl View for Config {
    type V = ConfigModel;

    open spec fn view(&self) -> ConfigModel {
        ConfigModel {
            tuning_items: tunings_view(self.tuning.items@),
            tuning_selected: self.tuning.selected(),
            theme_name: self.theme_name,
        }
    }
}

/// The models of a sequence of tunings.
pub open spec fn tunings_view(ts: Seq<Tuning>) -> Seq<TuningModel> {
    ts.map_values(|t: Tuning| t@)
}

/// Parse a list of pitch strings in order; the first failure wins and
/// reports the offending string.
pub open spec fn spec_parse_pitches(data: Seq<Seq<char>>) -> Result<Seq<Pitch>, Seq<char>>
    decreases data.len(),
{
    if data.len() == 0 {
        Ok(Seq::empty())
    } else {
        match spec_parse_pitch(data[0]) {
            None => Err(data[0]),
            Some(p) => match spec_parse_pitches(data.subrange(1, data.len() as int)) {
                Ok(rest) => Ok(seq![p] + rest),
                Err(b) => Err(b),
            },
        }
    }
}

/// The default display name of a tuning: the concatenation of its pitches'
/// sharp-preferred renderings.
pub open spec fn spec_concat_names(ps: Seq<Pitch>) -> Seq<char>
    decreases ps.len(),
{
    if ps.len() == 0 {
        Seq::empty()
    } else {
        spec_concat_names(ps.drop_last()) + spec_pitch_sharp(ps.last()@)
    }
}

/// The tuning a configuration entry resolves to: its pitch strings parsed,
/// the fret count falling back to the global default, and the name falling
/// back to the concatenated pitch names.
pub open spec fn spec_into_tuning(s: SchemaTuningModel, default_frets: u8) -> Result<
    TuningModel,
    Seq<char>,
> {
    match spec_parse_pitches(s.data) {
        Err(b) => Err(b),
        Ok(ps) => Ok(
            TuningModel {
                pitches: ps,
                total_frets: match s.frets {
                    Some(f) => f,
                    None => default_frets,
                },
                name: match s.name {
                    Some(nm) => nm,
                    None => spec_concat_names(ps),
                },
            },
        ),
    }
}

/// Resolve all configured tuning entries in order; the first failure wins.
pub open spec fn spec_into_tunings(schemas: Seq<SchemaTuningModel>, default_frets: u8) -> Result<
    Seq<TuningModel>,
    Seq<char>,
>
    decreases schemas.len(),
{
    if schemas.len() == 0 {
        Ok(Seq::empty())
    } else {
        match spec_into_tuning(schemas[0], default_frets) {
            Err(b) => Err(b),
            Ok(t) => match spec_into_tunings(
                schemas.subrange(1, schemas.len() as int),
                default_frets,
            ) {
                Ok(rest) => Ok(seq![t] + rest),
                Err(b) => Err(b),
            },
        }
    }
}

/// The index of the first tuning with the given name, if any.
pub open spec fn spec_find_name(ts: Seq<TuningModel>, nm: Seq<char>) -> Option<int>
    decreases ts.len(),
{
    if ts.len() == 0 {
        None
    } else if ts[0].name == nm {
        Some(0int)
    } else {
        match spec_find_name(ts.subrange(1, ts.len() as int), nm) {
            Some(i) => Some(i + 1),
            None => None,
        }
    }
}

/// The index selected by default: the first tuning carrying the configured
/// default name, or the first tuning when no name is configured or the name
/// resolves to nothing.
pub open spec fn spec_selected_index(ts: Seq<TuningModel>, default_tuning: Option<Seq<char>>) -> int {
    match default_tuning {
        None => 0,
        Some(nm) => match spec_find_name(ts, nm) {
            Some(i) => i,
            None => 0,
        },
    }
}

/// The validated configuration a resolved schema produces: every pitch
/// string parsed (first failure wins), and a non-empty tuning list with the
/// default selection resolved.
pub open spec fn spec_from_schema(m: SchemaConfigModel) -> Result<ConfigModel, TuningErrorModel> {
    match spec_into_tunings(m.tuning, m.default_frets) {
        Err(b) => Err(TuningErrorModel::Parse(b)),
        Ok(ts) => if ts.len() == 0 {
            Err(TuningErrorModel::Empty)
        } else {
            Ok(
                ConfigModel {
                    tuning_items: ts,
                    tuning_selected: spec_selected_index(ts, m.default_tuning),
                    theme_name: m.theme_name,
                },
            )
        },
    }
}

proof fn lemma_parse_pitches_ok(data: Seq<Seq<char>>)
    requires
        forall|j: int| 0 <= j < data.len() ==> spec_parse_pitch(data[j]) is Some,
    ensures
        spec_parse_pitches(data) == Ok::<Seq<Pitch>, Seq<char>>(
            Seq::new(data.len(), |j: int| spec_parse_pitch(data[j])->0),
        ),
    decreases data.len(),
{
    let expected = Seq::new(data.len(), |j: int| spec_parse_pitch(data[j])->0);
    if data.len() == 0 {
        assert(expected =~= Seq::empty());
    } else {
        let rest = data.subrange(1, data.len() as int);
        lemma_parse_pitches_ok(rest);
        let rest_expected = Seq::new(rest.len(), |j: int| spec_parse_pitch(rest[j])->0);
        assert(seq![spec_parse_pitch(data[0])->0] + rest_expected =~= expected);
    }
}

proof fn lemma_parse_pitches_err(data: Seq<Seq<char>>, i: int)
    requires
        0 <= i < data.len(),
        forall|j: int| 0 <= j < i ==> spec_parse_pitch(data[j]) is Some,
        spec_parse_pitch(data[i]) is None,
    ensures
        spec_parse_pitches(data) == Err::<Seq<Pitch>, Seq<char>>(data[i]),
    decreases i,
{
    if i > 0 {
        let rest = data.subrange(1, data.len() as int);
        lemma_parse_pitches_err(rest, i - 1);
    }
}

proof fn lemma_into_tunings_ok(schemas: Seq<SchemaTuningModel>, default_frets: u8)
    requires
        forall|j: int| 0 <= j < schemas.len() ==> spec_into_tuning(schemas[j], default_frets) is Ok,
    ensures
        spec_into_tunings(schemas, default_frets) == Ok::<Seq<TuningModel>, Seq<char>>(
            Seq::new(
                schemas.len(),
                |j: int| spec_into_tuning(schemas[j], default_frets)->Ok_0,
            ),
        ),
    decreases schemas.len(),
{
    let expected = Seq::new(
        schemas.len(),
        |j: int| spec_into_tuning(schemas[j], default_frets)->Ok_0,
    );
    if schemas.len() == 0 {
        assert(expected =~= Seq::empty());
    } else {
        let rest = schemas.subrange(1, schemas.len() as int);
        lemma_into_tunings_ok(rest, default_frets);
        let rest_expected = Seq::new(
            rest.len(),
            |j: int| spec_into_tuning(rest[j], default_frets)->Ok_0,
        );
        assert(seq![spec_into_tuning(schemas[0], default_frets)->Ok_0] + rest_expected
            =~= expected);
    }
}

proof fn lemma_into_tunings_err(schemas: Seq<SchemaTuningModel>, default_frets: u8, i: int)
    requires
        0 <= i < schemas.len(),
        forall|j: int| 0 <= j < i ==> spec_into_tuning(schemas[j], default_frets) is Ok,
        spec_into_tuning(schemas[i], default_frets) is Err,
    ensures
        spec_into_tunings(schemas, default_frets) == Err::<Seq<TuningModel>, Seq<char>>(
            spec_into_tuning(schemas[i], default_frets)->Err_0,
        ),
    decreases i,
{
    if i > 0 {
        let rest = schemas.subrange(1, schemas.len() as int);
        lemma_into_tunings_err(rest, default_frets, i - 1);
    }
}

proof fn lemma_find_name_at(ts: Seq<TuningModel>, nm: Seq<char>, j: int)
    requires
        0 <= j < ts.len(),
        forall|k: int| 0 <= k < j ==> ts[k].name != nm,
        ts[j].name == nm,
    ensures
        spec_find_name(ts, nm) == Some(j),
    decreases j,
{
    if j > 0 {
        lemma_find_name_at(ts.subrange(1, ts.len() as int), nm, j - 1);
    }
}

proof fn lemma_find_name_none(ts: Seq<TuningModel>, nm: Seq<char>)
    requires
        forall|k: int| 0 <= k < ts.len() ==> ts[k].name != nm,
    ensures
        spec_find_name(ts, nm) is None,
    decreases ts.len(),
{
    if ts.len() > 0 {
        lemma_find_name_none(ts.subrange(1, ts.len() as int), nm);
    }
}

impl SchemaTuning {
    /// Resolve this entry to a tuning: parse every pitch string (the first
    /// failure wins), fall back to the default fret count, and default the
    /// name to the concatenated pitch names.
    pub fn into_tuning(&self, default_total_frets: u8) -> (r: Result<Tuning, TuningError>)
        ensures
            match r {
                Ok(t) => spec_into_tuning(self@, default_total_frets) == Ok::<
                    TuningModel,
                    Seq<char>,
                >(t@),
                Err(e) => {
                    &&& e matches TuningError::ParsePitch(v)
                    &&& spec_into_tuning(self@, default_total_frets) == Err::<
                        TuningModel,
                        Seq<char>,
                    >(v@)
                },
            },
    {
        let ghost data = self@.data;
        let mut pitches: Vec<Pitch> = Vec::new();
        let mut i: usize = 0;
        while i < self.data.len()
            invariant
                0 <= i <= self.data.len(),
                data == self@.data,
                data.len() == self.data@.len(),
                forall|j: int| 0 <= j < data.len() ==> data[j] == self.data@[j]@,
                forall|j: int| 0 <= j < i ==> spec_parse_pitch(data[j]) is Some,
                pitches@ == Seq::new(i as nat, |j: int| spec_parse_pitch(data[j])->0),
            decreases self.data.len() - i,
        {
            match Pitch::parse(self.data[i].as_str()) {
                Ok(p) => {
                    pitches.push(p);
                    proof {
                        assert(pitches@ =~= Seq::new(
                            (i + 1) as nat,
                            |j: int| spec_parse_pitch(data[j])->0,
                        ));
                    }
                },
                Err(e) => {
                    proof {
                        lemma_parse_pitches_err(data, i as int);
                    }
                    return Err(e);
                },
            }
            i += 1;
        }
        proof {
            lemma_parse_pitches_ok(data);
        }
        let total_frets = match self.frets {
            Some(f) => f,
            None => default_total_frets,
        };
        let name = match &self.name {
            Some(nm) => nm.clone(),
            None => {
                let mut acc = String::new();
                let mut j: usize = 0;
                while j < pitches.len()
                    invariant
                        0 <= j <= pitches@.len(),
                        acc@ == spec_concat_names(pitches@.take(j as int)),
                    decreases pitches@.len() - j,
                {
                    let s = pitches[j].format_sharp();
                    acc.append(s.as_str());
                    proof {
                        assert(pitches@.take(j + 1).drop_last() =~= pitches@.take(j as int));
                        assert(pitches@.take(j + 1).last() == pitches@[j as int]);
                    }
                    j += 1;
                }
                proof {
                    assert(pitches@.take(pitches@.len() as int) =~= pitches@);
                }
                acc
            },
        };
        Ok(Tuning { pitches, total_frets, name })
    }
}

/// The first index among the tunings whose name matches, or 0 when none
/// does.
fn find_name(tunings: &Vec<Tuning>, nm: &String) -> (r: usize)
    ensures
        match spec_find_name(tunings_view(tunings@), nm@) {
            Some(i) => r == i,
            None => r == 0,
        },
        tunings@.len() > 0 ==> (r as int) < tunings@.len(),
{
    let ghost ts = tunings_view(tunings@);
    let mut j: usize = 0;
    while j < tunings.len()
        invariant
            0 <= j <= tunings@.len(),
            ts == tunings_view(tunings@),
            ts.len() == tunings@.len(),
            forall|k: int| 0 <= k < ts.len() ==> ts[k] == tunings@[k]@,
            forall|k: int| 0 <= k < j ==> ts[k].name != nm@,
        decreases tunings@.len() - j,
    {
        if tunings[j].name == *nm {
            proof {
                lemma_find_name_at(ts, nm@, j as int);
            }
            return j;
        }
        j += 1;
    }
    proof {
        lemma_find_name_none(ts, nm@);
    }
    0
}

impl Config {
    /// Validate a resolved schema: every pitch string must parse and the
    /// tuning list must be non-empty; an unresolvable default name falls
    /// back to the first tuning, not to an error.
    pub fn from_schema(value: SchemaConfig) -> (r: Result<Config, TuningError>)
        ensures
            match r {
                Ok(c) => spec_from_schema(value@) == Ok::<ConfigModel, TuningErrorModel>(c@),
                Err(e) => spec_from_schema(value@) == Err::<ConfigModel, TuningErrorModel>(e@),
            },
    {
        let ghost schemas = value@.tuning;
        let default_frets = value.default_frets;
        let mut tunings: Vec<Tuning> = Vec::new();
        let mut i: usize = 0;
        while i < value.tuning.len()
            invariant
                0 <= i <= value.tuning.len(),
                schemas == value@.tuning,
                schemas.len() == value.tuning@.len(),
                forall|j: int| 0 <= j < schemas.len() ==> schemas[j] == value.tuning@[j]@,
                default_frets == value.default_frets,
                forall|j: int| 0 <= j < i ==> spec_into_tuning(schemas[j], default_frets) is Ok,
                tunings@.len() == i as int,
                tunings_view(tunings@) == Seq::new(
                    i as nat,
                    |j: int| spec_into_tuning(schemas[j], default_frets)->Ok_0,
                ),
            decreases value.tuning.len() - i,
        {
            match value.tuning[i].into_tuning(default_frets) {
                Ok(t) => {
                    let ghost prev = tunings@;
                    let ghost tm = t@;
                    tunings.push(t);
                    proof {
                        let expected = Seq::new(
                            (i + 1) as nat,
                            |j: int| spec_into_tuning(schemas[j], default_frets)->Ok_0,
                        );
                        assert_seqs_equal!(tunings_view(tunings@) == expected, j => {
                            assert(tunings_view(tunings@)[j] == tunings@[j]@);
                            if j < i as int {
                                assert(tunings@[j] == prev[j]);
                                assert(tunings_view(prev)[j] == prev[j]@);
                                assert(tunings_view(prev)[j] == spec_into_tuning(
                                    schemas[j],
                                    default_frets,
                                )->Ok_0);
                            } else {
                                assert(tunings@[j]@ == tm);
                            }
                        });
                    }
                },
                Err(e) => {
                    proof {
                        lemma_into_tunings_err(schemas, default_frets, i as int);
                    }
                    return Err(e);
                },
            }
            i += 1;
        }
        proof {
            lemma_into_tunings_ok(schemas, default_frets);
        }
        let idx: usize = match &value.default_tuning {
            None => 0,
            Some(nm) => find_name(&tunings, nm),
        };
        match TuningCollection::new(tunings, idx) {
            Ok(c) => Ok(Config { tuning: c, theme_name: value.theme_name }),
            Err(e) => Err(e),
        }
    }
}

impl Default for Config {
    /// The built-in fallback configuration: the default tuning collection
    /// and the default theme.
    fn default() -> (r: Self)
        ensures
            r.tuning.items@.len() == 1,
            r.tuning.items@[0]@.pitches == crate::tuning::spec_default_pitches(),
            r.tuning.items@[0]@.total_frets == 24,
            r.tuning.items@[0]@.name == "Default"@,
            r.tuning.selected() == 0,
            r.tuning.wf(),
            r.theme_name == ThemeName::Mocha,
    {
        Self {
            tuning: TuningCollection::default(),
            theme_name: ThemeName::default(),
        }
    }
}

} // verus!
