//! The configuration document, its typed form, and resolution into jobs.
use vstd::prelude::*;
use vstd::string::*;
use crate::text::{replace_all, substitute};

verus! {

/// A text field's value as a sequence of characters, when present.
pub open spec fn opt_text(o: Option<String>) -> Option<Seq<char>> {
    match o {
        Some(s) => Some(s@),
        None => None,
    }
}

/// The text of an optional value, or the empty text when it is absent.
pub open spec fn text_or_empty(o: Option<Seq<char>>) -> Seq<char> {
    match o {
        Some(s) => s,
        None => Seq::empty(),
    }
}

/// The empty text stands for "no value".
pub open spec fn non_empty(s: Seq<char>) -> Option<Seq<char>> {
    if s.len() == 0 {
        None
    } else {
        Some(s)
    }
}

/// One (language, extension pattern) association of the document.
#[derive(Debug, Clone, PartialEq, Eq)]
pub struct LanguageMapData {
    pub language: String,
    pub extensions: String,
}

impl View for LanguageMapData {
    type V = (Seq<char>, Seq<char>);

    open spec fn view(&self) -> (Seq<char>, Seq<char>) {
        (self.language@, self.extensions@)
    }
}

/// The entries of a language-map list, in order.
pub open spec fn maps_view(maps: Seq<LanguageMapData>) -> Seq<(Seq<char>, Seq<char>)> {
    maps.map_values(|e: LanguageMapData| e@)
}

/// The fragment `language:pattern` of one entry.
pub open spec fn map_fragment(e: (Seq<char>, Seq<char>)) -> Seq<char> {
    e.0 + seq![':'] + e.1
}

/// The fragments of all entries joined by commas, in order; empty for no entry.
pub open spec fn encode_maps(es: Seq<(Seq<char>, Seq<char>)>) -> Seq<char>
    decreases es.len(),
{
    if es.len() == 0 {
        Seq::empty()
    } else if es.len() == 1 {
        map_fragment(es[0])
    } else {
        encode_maps(es.drop_last()) + seq![','] + map_fragment(es.last())
    }
}

/// Encodes a language-map list as one string: `lang:pattern` fragments
/// joined by commas, in list order.  No delimiter inside a name or a pattern
/// is escaped.
pub fn get_language_map_string(language_maps: &[LanguageMapData]) -> (r: String)
    ensures
        r@ == encode_maps(maps_view(language_maps@)),
{
    let ghost es = maps_view(language_maps@);
    let mut out = String::new();
    let mut i: usize = 0;
    proof {
        reveal_strlit(",");
        reveal_strlit(":");
        assert(","@ =~= seq![',']);
        assert(":"@ =~= seq![':']);
    }
    while i < language_maps.len()
        invariant
            i <= language_maps@.len(),
            es == maps_view(language_maps@),
            out@ == encode_maps(es.subrange(0, i as int)),
            ","@ == seq![','],
            ":"@ == seq![':'],
        decreases language_maps@.len() - i,
    {
        let entry = &language_maps[i];
        let ghost before = out@;
        if i > 0 {
            out.append(",");
        }
        out.append(entry.language.as_str());
        out.append(":");
        out.append(entry.extensions.as_str());
        proof {
            let pre = es.subrange(0, i as int);
            let now = es.subrange(0, i + 1);
            assert(now.drop_last() =~= pre);
            assert(now.last() == entry@);
            if i == 0 {
                assert(out@ =~= map_fragment(entry@));
            } else {
                assert(out@ =~= before + seq![','] + map_fragment(entry@));
            }
        }
        i = i + 1;
    }
    assert(es.subrange(0, i as int) =~= es);
    out
}


/// A copy of an optional text value.
fn copy_text(o: &Option<String>) -> (r: Option<String>)
    ensures
        opt_text(r) == opt_text(*o),
{
    match o {
        Some(s) => Some(s.clone()),
        None => None,
    }
}

/// The symbol-definition pairs of the document, as text.
pub open spec fn defines_view(d: Seq<(String, Option<String>)>) -> Seq<(Seq<char>, Option<Seq<char>>)> {
    d.map_values(|p: (String, Option<String>)| (p.0@, opt_text(p.1)))
}

/// The texts of a list of strings.
pub open spec fn texts_view(v: Seq<String>) -> Seq<Seq<char>> {
    v.map_values(|s: String| s@)
}

/// A copy of a list of symbol definitions.
fn copy_defines(d: &Vec<(String, Option<String>)>) -> (r: Vec<(String, Option<String>)>)
    ensures
        defines_view(r@) == defines_view(d@),
{
    let mut out: Vec<(String, Option<String>)> = Vec::new();
    let mut i: usize = 0;
    while i < d.len()
        invariant
            i <= d@.len(),
            out@.len() == i,
            forall|j: int|
                0 <= j < i ==> (#[trigger] out@[j]).0@ == d@[j].0@ && opt_text(out@[j].1)
                    == opt_text(d@[j].1),
        decreases d@.len() - i,
    {
        let (symbol, definition) = &d[i];
        out.push((symbol.clone(), copy_text(definition)));
        i = i + 1;
    }
    assert(defines_view(out@) =~= defines_view(d@));
    out
}

/// A copy of a language-map list.
fn copy_maps(v: &Vec<LanguageMapData>) -> (r: Vec<LanguageMapData>)
    ensures
        maps_view(r@) == maps_view(v@),
{
    let mut out: Vec<LanguageMapData> = Vec::new();
    let mut i: usize = 0;
    while i < v.len()
        invariant
            i <= v@.len(),
            out@.len() == i,
            forall|j: int| 0 <= j < i ==> (#[trigger] out@[j])@ == v@[j]@,
        decreases v@.len() - i,
    {
        let e = &v[i];
        out.push(LanguageMapData { language: e.language.clone(), extensions: e.extensions.clone() });
        i = i + 1;
    }
    assert(maps_view(out@) =~= maps_view(v@));
    out
}

/// The values that every job inherits, or that an override resolves against.
pub struct Settings {
    pub recurse: bool,
    pub languages: Option<Seq<char>>,
    pub language_maps: Option<Seq<char>>,
    pub extras: Option<Seq<char>>,
    pub exclude: Option<Seq<char>>,
    pub exclude_exception: Option<Seq<char>>,
    pub defines: Seq<(Seq<char>, Option<Seq<char>>)>,
}

/// Document-level defaults, with the language maps already encoded.
#[derive(Debug, Clone, PartialEq, Eq)]
pub struct Defaults {
    pub recurse: bool,
    pub languages: Option<String>,
    pub language_maps: Option<String>,
    pub extras: Option<String>,
    pub exclude: Option<String>,
    pub exclude_exception: Option<String>,
    pub defines: Vec<(String, Option<String>)>,
}

impl View for Defaults {
    type V = Settings;

    open spec fn view(&self) -> Settings {
        Settings {
            recurse: self.recurse,
            languages: opt_text(self.languages),
            language_maps: opt_text(self.language_maps),
            extras: opt_text(self.extras),
            exclude: opt_text(self.exclude),
            exclude_exception: opt_text(self.exclude_exception),
            defines: defines_view(self.defines@),
        }
    }
}

/// An override record whose fields carry their types: any absent field is
/// inherited from the defaults.
pub struct OverrideView {
    pub path: Seq<char>,
    pub recurse: Option<bool>,
    pub languages: Option<Seq<char>>,
    pub language_maps: Option<Seq<(Seq<char>, Seq<char>)>>,
    pub extras: Option<Seq<char>>,
    pub exclude: Option<Seq<char>>,
    pub exclude_exception: Option<Seq<char>>,
}

/// A per-path override record.
#[derive(Debug, Clone, PartialEq, Eq)]
pub struct Override {
    pub path: String,
    pub recurse: Option<bool>,
    pub languages: Option<String>,
    pub language_maps: Option<Vec<LanguageMapData>>,
    pub extras: Option<String>,
    pub exclude: Option<String>,
    pub exclude_exception: Option<String>,
}

/// The entries of an optional language-map list.
pub open spec fn opt_maps(o: Option<Vec<LanguageMapData>>) -> Option<Seq<(Seq<char>, Seq<char>)>> {
    match o {
        Some(v) => Some(maps_view(v@)),
        None => None,
    }
}

impl View for Override {
    type V = OverrideView;

    open spec fn view(&self) -> OverrideView {
        OverrideView {
            path: self.path@,
            recurse: self.recurse,
            languages: opt_text(self.languages),
            language_maps: opt_maps(self.language_maps),
            extras: opt_text(self.extras),
            exclude: opt_text(self.exclude),
            exclude_exception: opt_text(self.exclude_exception),
        }
    }
}

/// A resolved job: a target path and the settings it is indexed with.
pub struct JobView {
    pub path: Seq<char>,
    pub settings: Settings,
}

/// One fully resolved unit of indexing work.
#[derive(Debug, Clone, PartialEq, Eq)]
pub struct Job {
    pub path: String,
    pub recurse: bool,
    pub languages: Option<String>,
    pub language_maps: Option<String>,
    pub extras: Option<String>,
    pub exclude: Option<String>,
    pub exclude_exception: Option<String>,
    pub defines: Vec<(String, Option<String>)>,
}

impl View for Job {
    type V = JobView;

    open spec fn view(&self) -> JobView {
        JobView {
            path: self.path@,
            settings: Settings {
                recurse: self.recurse,
                languages: opt_text(self.languages),
                language_maps: opt_text(self.language_maps),
                extras: opt_text(self.extras),
                exclude: opt_text(self.exclude),
                exclude_exception: opt_text(self.exclude_exception),
                defines: defines_view(self.defines@),
            },
        }
    }
}

/// The optional text fields that an override can set.
#[derive(Debug, Clone, Copy, PartialEq, Eq)]
pub enum Field {
    Languages,
    LanguageMaps,
    Extras,
    Exclude,
    ExcludeException,
}

/// The placeholder that stands for a field's inherited value.
pub open spec fn token_of(f: Field) -> Seq<char> {
    match f {
        Field::Languages => "${languages}"@,
        Field::LanguageMaps => "${language_maps}"@,
        Field::Extras => "${extras}"@,
        Field::Exclude => "${exclude}"@,
        Field::ExcludeException => "${excludeException}"@,
    }
}

impl Field {
    /// The placeholder that stands for this field's inherited value.
    pub fn token(self) -> (r: &'static str)
        ensures
            r@ == token_of(self),
            r@.len() > 0,
    {
        proof {
            reveal_strlit("${languages}");
            reveal_strlit("${language_maps}");
            reveal_strlit("${extras}");
            reveal_strlit("${exclude}");
            reveal_strlit("${excludeException}");
        }
        match self {
            Field::Languages => "${languages}",
            Field::LanguageMaps => "${language_maps}",
            Field::Extras => "${extras}",
            Field::Exclude => "${exclude}",
            Field::ExcludeException => "${excludeException}",
        }
    }
}

/// A field's value among some settings.
pub open spec fn setting(s: Settings, f: Field) -> Option<Seq<char>> {
    match f {
        Field::Languages => s.languages,
        Field::LanguageMaps => s.language_maps,
        Field::Extras => s.extras,
        Field::Exclude => s.exclude,
        Field::ExcludeException => s.exclude_exception,
    }
}

/// The text that an override gives a field; a language-map list is encoded.
pub open spec fn override_text(o: OverrideView, f: Field) -> Option<Seq<char>> {
    match f {
        Field::Languages => o.languages,
        Field::LanguageMaps => match o.language_maps {
            Some(es) => Some(encode_maps(es)),
            None => None,
        },
        Field::Extras => o.extras,
        Field::Exclude => o.exclude,
        Field::ExcludeException => o.exclude_exception,
    }
}

/// An override's text for a field, resolved against the inherited value:
/// absent text inherits; present text has its placeholder replaced by the
/// inherited value (the empty text when there is none), and an empty result
/// is no value.
pub open spec fn resolve_text(
    over: Option<Seq<char>>,
    token: Seq<char>,
    inherited: Option<Seq<char>>,
) -> Option<Seq<char>> {
    match over {
        None => inherited,
        Some(t) => non_empty(replace_all(t, token, text_or_empty(inherited))),
    }
}

/// The settings of a job that an override produces.
pub open spec fn resolve_settings(o: OverrideView, d: Settings) -> Settings {
    Settings {
        recurse: match o.recurse {
            Some(b) => b,
            None => d.recurse,
        },
        languages: resolve_text(override_text(o, Field::Languages), token_of(Field::Languages), d.languages),
        language_maps: resolve_text(
            override_text(o, Field::LanguageMaps),
            token_of(Field::LanguageMaps),
            d.language_maps,
        ),
        extras: resolve_text(override_text(o, Field::Extras), token_of(Field::Extras), d.extras),
        exclude: resolve_text(override_text(o, Field::Exclude), token_of(Field::Exclude), d.exclude),
        exclude_exception: resolve_text(
            override_text(o, Field::ExcludeException),
            token_of(Field::ExcludeException),
            d.exclude_exception,
        ),
        defines: d.defines,
    }
}

/// The job of a plain target path: the defaults, verbatim.
pub open spec fn plain_job(path: Seq<char>, d: Settings) -> JobView {
    JobView { path, settings: d }
}

/// The job of an override record.
pub open spec fn override_job(o: OverrideView, d: Settings) -> JobView {
    JobView { path: o.path, settings: resolve_settings(o, d) }
}

/// All jobs, in order: one per plain path, then one per override record.
pub open spec fn resolved_jobs(d: Settings, paths: Seq<Seq<char>>, overrides: Seq<OverrideView>) -> Seq<JobView> {
    paths.map_values(|p: Seq<char>| plain_job(p, d)) + overrides.map_values(
        |o: OverrideView| override_job(o, d),
    )
}

/// The jobs of a list, as values.
pub open spec fn jobs_view(v: Seq<Job>) -> Seq<JobView> {
    v.map_values(|j: Job| j@)
}

/// The override records of a list, as values.
pub open spec fn overrides_view(v: Seq<Override>) -> Seq<OverrideView> {
    v.map_values(|o: Override| o@)
}

/// Some text, or no value when it is empty.
fn if_non_empty_then_some(s: String) -> (r: Option<String>)
    ensures
        opt_text(r) == non_empty(s@),
{
    if s.as_str().is_empty() {
        None
    } else {
        Some(s)
    }
}

/// Resolves one optional text field of an override record against the
/// inherited value.
pub fn resolve_field(over: &Option<String>, token: &str, inherited: &Option<String>) -> (r: Option<String>)
    ensures
        opt_text(r) == resolve_text(opt_text(*over), token@, opt_text(*inherited)),
{
    match over {
        None => copy_text(inherited),
        Some(t) => {
            let replaced = match inherited {
                Some(d) => substitute(t.as_str(), token, d.as_str()),
                None => {
                    proof {
                        reveal_strlit("");
                        assert(""@ =~= Seq::<char>::empty());
                    }
                    substitute(t.as_str(), token, "")
                },
            };
            if_non_empty_then_some(replaced)
        },
    }
}

impl Job {
    /// The job of a plain target path: the defaults, verbatim.
    pub fn for_path(path: &String, defaults: &Defaults) -> (r: Job)
        ensures
            r@ == plain_job(path@, defaults@),
    {
        Job {
            path: path.clone(),
            recurse: defaults.recurse,
            languages: copy_text(&defaults.languages),
            language_maps: copy_text(&defaults.language_maps),
            extras: copy_text(&defaults.extras),
            exclude: copy_text(&defaults.exclude),
            exclude_exception: copy_text(&defaults.exclude_exception),
            defines: copy_defines(&defaults.defines),
        }
    }

    /// The job of an override record, resolved against the defaults.
    pub fn for_override(o: &Override, defaults: &Defaults) -> (r: Job)
        ensures
            r@ == override_job(o@, defaults@),
    {
        let maps = match &o.language_maps {
            Some(m) => Some(get_language_map_string(m.as_slice())),
            None => None,
        };
        let recurse = match o.recurse {
            Some(b) => b,
            None => defaults.recurse,
        };
        Job {
            path: o.path.clone(),
            recurse,
            languages: resolve_field(&o.languages, Field::Languages.token(), &defaults.languages),
            language_maps: resolve_field(&maps, Field::LanguageMaps.token(), &defaults.language_maps),
            extras: resolve_field(&o.extras, Field::Extras.token(), &defaults.extras),
            exclude: resolve_field(&o.exclude, Field::Exclude.token(), &defaults.exclude),
            exclude_exception: resolve_field(
                &o.exclude_exception,
                Field::ExcludeException.token(),
                &defaults.exclude_exception,
            ),
            defines: copy_defines(&defaults.defines),
        }
    }
}

/// Resolves the plain target paths and the override records against the
/// defaults: one job per path, plain paths first, each list in its order.
pub fn resolve_jobs(defaults: &Defaults, paths: &Vec<String>, overrides: &Vec<Override>) -> (r: Vec<Job>)
    ensures
        jobs_view(r@) == resolved_jobs(defaults@, texts_view(paths@), overrides_view(overrides@)),
{
    let ghost d = defaults@;
    let ghost ps = texts_view(paths@);
    let ghost os = overrides_view(overrides@);
    let mut jobs: Vec<Job> = Vec::new();
    let mut i: usize = 0;
    while i < paths.len()
        invariant
            i <= paths@.len(),
            d == defaults@,
            ps == texts_view(paths@),
            jobs@.len() == i,
            forall|j: int| 0 <= j < i ==> (#[trigger] jobs@[j])@ == plain_job(ps[j], d),
        decreases paths@.len() - i,
    {
        jobs.push(Job::for_path(&paths[i], defaults));
        i = i + 1;
    }
    let ghost n = paths@.len();
    let mut k: usize = 0;
    while k < overrides.len()
        invariant
            k <= overrides@.len(),
            d == defaults@,
            os == overrides_view(overrides@),
            n == paths@.len(),
            ps == texts_view(paths@),
            jobs@.len() == n + k,
            forall|j: int| 0 <= j < n ==> (#[trigger] jobs@[j])@ == plain_job(ps[j], d),
            forall|j: int| 0 <= j < k ==> (#[trigger] jobs@[n + j])@ == override_job(os[j], d),
        decreases overrides@.len() - k,
    {
        jobs.push(Job::for_override(&overrides[k], defaults));
        assert(jobs@[n + k]@ == override_job(os[k as int], d));
        k = k + 1;
    }
    proof {
        let want = resolved_jobs(d, ps, os);
        assert forall|j: int| 0 <= j < jobs@.len() implies jobs_view(jobs@)[j] == want[j] by {
            if j >= n {
                assert(jobs@[n + (j - n)] == jobs@[j]);
            }
        }
        assert(jobs_view(jobs@) =~= want);
    }
    jobs
}


/// One symbol definition of the document.
#[derive(Debug, Clone, PartialEq, Eq)]
pub struct DefineData {
    pub symbol: String,
    pub definition: Option<String>,
}

/// An override record as the document writes it: `recurse` is still text.
#[derive(Debug, Clone, PartialEq, Eq)]
pub struct OverridePathData {
    pub path: String,
    pub recurse: Option<String>,
    pub languages: Option<String>,
    pub language_maps: Option<Vec<LanguageMapData>>,
    pub extras: Option<String>,
    pub exclude: Option<String>,
    pub exclude_exception: Option<String>,
}

/// The configuration document, field by field; `recurse` is still text.
#[derive(Debug, Clone, PartialEq, Eq)]
pub struct ConfigData {
    pub binary: String,
    pub output_file: Option<String>,
    pub recurse: String,
    pub languages: Option<String>,
    pub language_maps: Option<Vec<LanguageMapData>>,
    pub extras: Option<String>,
    pub exclude: Option<String>,
    pub exclude_exception: Option<String>,
    pub defines: Vec<DefineData>,
    pub paths: Vec<String>,
    pub override_paths: Vec<OverridePathData>,
}

/// The outcome of reading a document: the indexer, the output file and the
/// jobs in order.
pub struct ConfigView {
    pub binary: Seq<char>,
    pub output_file: Seq<char>,
    pub jobs: Seq<JobView>,
}

/// A resolved configuration.
#[derive(Debug, Clone, PartialEq, Eq)]
pub struct Config {
    pub binary: String,
    pub output_file: String,
    pub jobs: Vec<Job>,
}

impl View for Config {
    type V = ConfigView;

    open spec fn view(&self) -> ConfigView {
        ConfigView { binary: self.binary@, output_file: self.output_file@, jobs: jobs_view(self.jobs@) }
    }
}

/// Why a document was refused.
#[derive(Debug, Clone, PartialEq, Eq)]
pub enum ConfigError {
    /// The document-level `recurse` is neither `true` nor `false`.
    InvalidRecurse { value: String },
    /// The `recurse` of the override record at `index` is neither `true` nor `false`.
    InvalidOverrideRecurse { index: usize, value: String },
}

/// The boolean that a text spells, if it is one of the two canonical forms.
pub open spec fn bool_text(s: Seq<char>) -> Option<bool> {
    if s == "true"@ {
        Some(true)
    } else if s == "false"@ {
        Some(false)
    } else {
        None
    }
}

/// Relies on `<bool as FromStr>::from_str`: it accepts exactly `true` and
/// `false`.
#[verifier::external_body]
fn parse_bool(s: &str) -> (r: Option<bool>)
    ensures
        r == bool_text(s@),
{
    match s.parse::<bool>() {
        Ok(b) => Some(b),
        Err(_) => None,
    }
}

/// The symbol definitions of the document, as text.
pub open spec fn define_data_view(d: Seq<DefineData>) -> Seq<(Seq<char>, Option<Seq<char>>)> {
    d.map_values(|e: DefineData| (e.symbol@, opt_text(e.definition)))
}

/// An optional language-map list, encoded.
pub open spec fn encode_opt_maps(o: Option<Vec<LanguageMapData>>) -> Option<Seq<char>> {
    match o {
        Some(v) => Some(encode_maps(maps_view(v@))),
        None => None,
    }
}

/// The defaults of a document, with `recurse` already read.
pub open spec fn doc_defaults(data: ConfigData, recurse: bool) -> Settings {
    Settings {
        recurse,
        languages: opt_text(data.languages),
        language_maps: encode_opt_maps(data.language_maps),
        extras: opt_text(data.extras),
        exclude: opt_text(data.exclude),
        exclude_exception: opt_text(data.exclude_exception),
        defines: define_data_view(data.defines@),
    }
}

/// An override record's `recurse` text is absent or a boolean.
pub open spec fn override_well_formed(o: OverridePathData) -> bool {
    match o.recurse {
        Some(t) => bool_text(t@) is Some,
        None => true,
    }
}

/// The typed form of a well-formed override record.
pub open spec fn typed_override(o: OverridePathData) -> OverrideView {
    OverrideView {
        path: o.path@,
        recurse: match o.recurse {
            Some(t) => bool_text(t@),
            None => None,
        },
        languages: opt_text(o.languages),
        language_maps: opt_maps(o.language_maps),
        extras: opt_text(o.extras),
        exclude: opt_text(o.exclude),
        exclude_exception: opt_text(o.exclude_exception),
    }
}

/// Every boolean field of the document is `true` or `false`.
pub open spec fn doc_well_formed(data: ConfigData) -> bool {
    &&& bool_text(data.recurse@) is Some
    &&& forall|i: int|
        0 <= i < data.override_paths@.len() ==> override_well_formed(
            #[trigger] data.override_paths@[i],
        )
}

/// The output file a document names, `tags` when it names none.
pub open spec fn doc_output_file(data: ConfigData) -> Seq<char> {
    match data.output_file {
        Some(f) => f@,
        None => "tags"@,
    }
}

/// The resolved configuration of a well-formed document.
pub open spec fn resolved_config(data: ConfigData) -> ConfigView {
    ConfigView {
        binary: data.binary@,
        output_file: doc_output_file(data),
        jobs: resolved_jobs(
            doc_defaults(data, bool_text(data.recurse@) == Some(true)),
            texts_view(data.paths@),
            data.override_paths@.map_values(|o: OverridePathData| typed_override(o)),
        ),
    }
}

impl Defaults {
    /// Reads the document-level defaults; fails when `recurse` is not a
    /// boolean.
    pub fn from_data(data: &ConfigData) -> (r: Result<Defaults, ConfigError>)
        ensures
            match r {
                Ok(d) => bool_text(data.recurse@) == Some(d.recurse) && d@ == doc_defaults(
                    *data,
                    d.recurse,
                ),
                Err(e) => {
                    &&& bool_text(data.recurse@) is None
                    &&& (e matches ConfigError::InvalidRecurse { value } && value@ == data.recurse@)
                },
            },
    {
        let recurse = match parse_bool(data.recurse.as_str()) {
            Some(b) => b,
            None => {
                return Err(ConfigError::InvalidRecurse { value: data.recurse.clone() });
            },
        };
        let language_maps = match &data.language_maps {
            Some(m) => Some(get_language_map_string(m.as_slice())),
            None => None,
        };
        let mut defines: Vec<(String, Option<String>)> = Vec::new();
        let mut i: usize = 0;
        while i < data.defines.len()
            invariant
                i <= data.defines@.len(),
                defines@.len() == i,
                forall|j: int|
                    0 <= j < i ==> (#[trigger] defines@[j]).0@ == data.defines@[j].symbol@
                        && opt_text(defines@[j].1) == opt_text(data.defines@[j].definition),
            decreases data.defines@.len() - i,
        {
            let d = &data.defines[i];
            defines.push((d.symbol.clone(), copy_text(&d.definition)));
            i = i + 1;
        }
        assert(defines_view(defines@) =~= define_data_view(data.defines@));
        Ok(
            Defaults {
                recurse,
                languages: copy_text(&data.languages),
                language_maps,
                extras: copy_text(&data.extras),
                exclude: copy_text(&data.exclude),
                exclude_exception: copy_text(&data.exclude_exception),
                defines,
            },
        )
    }
}

impl Override {
    /// Reads the override record at position `index` of the document; fails
    /// when its `recurse` is present and not a boolean.
    pub fn from_data(data: &OverridePathData, index: usize) -> (r: Result<Override, ConfigError>)
        ensures
            match r {
                Ok(o) => override_well_formed(*data) && o@ == typed_override(*data),
                Err(e) => {
                    &&& !override_well_formed(*data)
                    &&& (e matches ConfigError::InvalidOverrideRecurse { index: i, value } && i
                        == index && data.recurse == Some(value))
                },
            },
    {
        let recurse = match &data.recurse {
            Some(t) => match parse_bool(t.as_str()) {
                Some(b) => Some(b),
                None => {
                    return Err(ConfigError::InvalidOverrideRecurse { index, value: t.clone() });
                },
            },
            None => None,
        };
        let language_maps = match &data.language_maps {
            Some(m) => Some(copy_maps(m)),
            None => None,
        };
        Ok(
            Override {
                path: data.path.clone(),
                recurse,
                languages: copy_text(&data.languages),
                language_maps,
                extras: copy_text(&data.extras),
                exclude: copy_text(&data.exclude),
                exclude_exception: copy_text(&data.exclude_exception),
            },
        )
    }
}

/// Reads a configuration document and resolves it into jobs.  Every
/// boolean field must be `true` or `false`; otherwise the first malformed
/// one, the document-level field before the override records, is reported
/// and no job is produced.
pub fn parse(data: &ConfigData) -> (r: Result<Config, ConfigError>)
    ensures
        r is Ok <==> doc_well_formed(*data),
        r matches Ok(c) ==> c@ == resolved_config(*data),
        r matches Err(ConfigError::InvalidRecurse { value }) ==> bool_text(data.recurse@) is None
            && value@ == data.recurse@,
        r matches Err(ConfigError::InvalidOverrideRecurse { index, value }) ==> {
            &&& bool_text(data.recurse@) is Some
            &&& index < data.override_paths@.len()
            &&& !override_well_formed(data.override_paths@[index as int])
            &&& data.override_paths@[index as int].recurse == Some(value)
            &&& forall|j: int| 0 <= j < index ==> override_well_formed(#[trigger] data.override_paths@[j])
        },
{
    let defaults = match Defaults::from_data(data) {
        Ok(d) => d,
        Err(e) => {
            return Err(e);
        },
    };
    let mut overrides: Vec<Override> = Vec::new();
    let mut i: usize = 0;
    while i < data.override_paths.len()
        invariant
            i <= data.override_paths@.len(),
            bool_text(data.recurse@) == Some(defaults.recurse),
            defaults@ == doc_defaults(*data, defaults.recurse),
            overrides@.len() == i,
            forall|j: int| 0 <= j < i ==> override_well_formed(#[trigger] data.override_paths@[j]),
            forall|j: int| 0 <= j < i ==> (#[trigger] overrides@[j])@ == typed_override(data.override_paths@[j]),
        decreases data.override_paths@.len() - i,
    {
        match Override::from_data(&data.override_paths[i], i) {
            Ok(o) => overrides.push(o),
            Err(e) => {
                return Err(e);
            },
        }
        i = i + 1;
    }
    assert(overrides_view(overrides@) =~= data.override_paths@.map_values(
        |o: OverridePathData| typed_override(o),
    ));
    let jobs = resolve_jobs(&defaults, &data.paths, &overrides);
    let output_file = match &data.output_file {
        Some(f) => f.clone(),
        None => String::from_str("tags"),
    };
    Ok(Config { binary: data.binary.clone(), output_file, jobs })
}

} // verus!
