//! Target resolution: mapping user-supplied event tags and a configured
//! device list onto the concrete subset of devices a pattern addresses.
//!
//! Tags and names arrive from user-editable surfaces, so they are first
//! brought to a canonical form: surrounding whitespace is trimmed and
//! letters are lower-cased. A raw comma-separated string is an alternate
//! encoding of a tag list, split and normalized identically; empty
//! segments are silently discarded, because the constrained surface that
//! supplies them cannot express an absent element.

use vstd::prelude::*;

use crate::devices::DeviceAdded;
use crate::devices::DeviceAddedModel;
use crate::messages::device_models;

use vstd::string::StrSliceExecFns;

verus! {

/// The characters of `str::trim`'s result: `s` without its leading and
/// trailing Unicode whitespace.
pub uninterp spec fn trimmed(s: Seq<char>) -> Seq<char>;

/// The characters of `str::to_lowercase`'s result: the Unicode
/// lowercase equivalent of `s`.
pub uninterp spec fn lower_of(s: Seq<char>) -> Seq<char>;

/// The canonical form of a tag or name: surrounding whitespace trimmed,
/// then lower-cased.
pub open spec fn normalized(s: Seq<char>) -> Seq<char> {
    lower_of(trimmed(s))
}

/// Relies on `str::trim`: returns `s` with leading and trailing
/// whitespace removed; the result depends on the characters alone.
#[verifier::external_body]
fn trim_str(s: &str) -> (r: &str)
    ensures
        r@ == trimmed(s@),
{
    s.trim()
}

/// Relies on `str::to_lowercase`: returns the Unicode lowercase
/// equivalent of `s`; the result depends on the characters alone.
#[verifier::external_body]
fn lower_str(s: &str) -> (r: String)
    ensures
        r@ == lower_of(s@),
{
    s.to_lowercase()
}

/// Relies on `String::push`: appends exactly the given character.
#[verifier::external_body]
fn push_char(s: &mut String, c: char)
    ensures
        final(s)@ == old(s)@.push(c),
{
    s.push(c);
}

/// The canonical form of one tag or name: surrounding whitespace
/// trimmed, then lower-cased.
pub fn normalize(s: &str) -> (r: String)
    ensures
        r@ == normalized(s@),
{
    lower_str(trim_str(s))
}

/// The models of a list of owned strings.
pub open spec fn string_models(s: Seq<String>) -> Seq<Seq<char>> {
    s.map_values(|t: String| t@)
}

/// Every tag of the list, normalized.
pub open spec fn normalized_all(tags: Seq<Seq<char>>) -> Seq<Seq<char>> {
    tags.map_values(|t: Seq<char>| normalized(t))
}

/// Every element of the list brought to its canonical form, in order.
pub fn sanitize_name_list(list: &Vec<String>) -> (r: Vec<String>)
    ensures
        string_models(r@) == normalized_all(string_models(list@)),
{
    let mut r: Vec<String> = Vec::new();
    let mut i: usize = 0;
    while i < list.len()
        invariant
            i <= list@.len(),
            string_models(r@) =~= normalized_all(string_models(list@)).take(i as int),
        decreases list@.len() - i,
    {
        let ghost models = string_models(r@);
        r.push(normalize(list[i].as_str()));
        proof {
            assert(string_models(r@) =~= models.push(normalized(list@[i as int]@)));
            assert(normalized_all(string_models(list@)).take(i + 1) =~= models.push(
                normalized(list@[i as int]@),
            ));
        }
        i += 1;
    }
    proof {
        assert(normalized_all(string_models(list@)).take(list@.len() as int) =~= normalized_all(
            string_models(list@),
        ));
    }
    r
}

/// The position of the first comma of `s`, or its length if there is
/// none.
pub open spec fn first_comma(s: Seq<char>) -> int
    decreases s.len(),
{
    if s.len() == 0 {
        0
    } else if s.first() == ',' {
        0
    } else {
        1 + first_comma(s.drop_first())
    }
}

/// If the first `k` characters are not commas and the next one is (or
/// the sequence ends), the first comma is at `k`.
proof fn lemma_first_comma_at(s: Seq<char>, k: int)
    requires
        0 <= k <= s.len(),
        forall|j: int| 0 <= j < k ==> #[trigger] s[j] != ',',
        k == s.len() || s[k] == ',',
    ensures
        first_comma(s) == k,
    decreases k,
{
    if k == 0 {
    } else {
        assert(forall|j: int| 0 <= j < k - 1 ==> #[trigger] s.drop_first()[j] != ',');
        lemma_first_comma_at(s.drop_first(), k - 1);
    }
}

/// The tag list a raw comma-separated string encodes: the string is
/// split at its commas, empty segments are discarded, and every
/// surviving segment is brought to its canonical form, in order.
pub open spec fn parse_spec(s: Seq<char>) -> Seq<Seq<char>>
    decreases s.len(),
{
    let k = first_comma(s);
    if !(0 <= k < s.len()) {
        if s.len() > 0 {
            seq![normalized(s)]
        } else {
            Seq::empty()
        }
    } else {
        let head = if k > 0 {
            seq![normalized(s.take(k))]
        } else {
            Seq::<Seq<char>>::empty()
        };
        head + parse_spec(s.skip(k + 1))
    }
}

/// Splitting a string at a comma splits its parse: everything before
/// the first comma contributes at most one tag, the rest parses on its
/// own.
proof fn lemma_parse_spec_step(s: Seq<char>, k: int)
    requires
        0 <= k < s.len(),
        forall|j: int| 0 <= j < k ==> #[trigger] s[j] != ',',
        s[k] == ',',
    ensures
        parse_spec(s) == if k > 0 {
            seq![normalized(s.take(k))] + parse_spec(s.skip(k + 1))
        } else {
            parse_spec(s.skip(k + 1))
        },
{
    lemma_first_comma_at(s, k);
    if k == 0 {
        assert(Seq::<Seq<char>>::empty() + parse_spec(s.skip(k + 1)) =~= parse_spec(
            s.skip(k + 1),
        ));
    }
}

/// A string without commas parses to its canonical form alone, or to
/// nothing if it is empty.
proof fn lemma_parse_spec_last(s: Seq<char>)
    requires
        forall|j: int| 0 <= j < s.len() ==> #[trigger] s[j] != ',',
    ensures
        parse_spec(s) == if s.len() > 0 {
            seq![normalized(s)]
        } else {
            Seq::<Seq<char>>::empty()
        },
{
    lemma_first_comma_at(s, s.len() as int);
}

/// Parses a raw comma-separated tag string: splits at commas, discards
/// empty segments, and normalizes every surviving segment, in order.
pub fn parse_list_string(input: &str) -> (r: Vec<String>)
    ensures
        string_models(r@) == parse_spec(input@),
{
    let n = input.unicode_len();
    let mut r: Vec<String> = Vec::new();
    let mut cur = String::new();
    let ghost mut start: int = 0;
    let mut i: usize = 0;
    proof {
        assert(cur@ =~= input@.subrange(0, 0));
        assert(input@.skip(0) =~= input@);
        assert(string_models(r@) + parse_spec(input@.skip(0)) =~= parse_spec(input@));
    }
    while i < n
        invariant
            0 <= start <= i <= n,
            n == input@.len(),
            cur@ == input@.subrange(start, i as int),
            forall|t: int| start <= t < i ==> #[trigger] input@[t] != ',',
            string_models(r@) + parse_spec(input@.skip(start)) == parse_spec(input@),
        decreases n - i,
    {
        let c = input.get_char(i);
        if c == ',' {
            let ghost models = string_models(r@);
            let ghost part = cur@;
            if !cur.as_str().is_empty() {
                let tag = normalize(cur.as_str());
                r.push(tag);
                proof {
                    assert(string_models(r@) =~= models.push(normalized(part)));
                }
            }
            cur = String::new();
            proof {
                let suffix = input@.skip(start);
                let rest = parse_spec(input@.skip(i + 1));
                lemma_parse_spec_step(suffix, i - start);
                assert(suffix.take(i - start) =~= part);
                assert(suffix.skip(i - start + 1) =~= input@.skip(i + 1));
                if i > start {
                    assert(parse_spec(suffix) == seq![normalized(part)] + rest);
                    assert(string_models(r@) + rest =~= models + (seq![normalized(part)]
                        + rest));
                } else {
                    assert(parse_spec(suffix) == rest);
                }
                start = i + 1;
                assert(cur@ =~= input@.subrange(start, i + 1));
                assert(string_models(r@) + parse_spec(input@.skip(start)) == parse_spec(
                    input@,
                ));
            }
        } else {
            push_char(&mut cur, c);
            proof {
                assert(cur@ =~= input@.subrange(start, i + 1));
            }
        }
        i += 1;
    }
    let ghost models = string_models(r@);
    let ghost suffix = input@.skip(start);
    proof {
        assert(suffix =~= input@.subrange(start, n as int));
        assert(forall|j: int| 0 <= j < suffix.len() ==> #[trigger] suffix[j] != ',') by {
            assert(forall|j: int|
                0 <= j < suffix.len() ==> #[trigger] suffix[j] == input@[j + start]);
        }
        lemma_parse_spec_last(suffix);
    }
    if !cur.as_str().is_empty() {
        let tag = normalize(cur.as_str());
        r.push(tag);
        proof {
            assert(string_models(r@) =~= models.push(normalized(suffix)));
            assert(string_models(r@) =~= models + seq![normalized(suffix)]);
        }
    } else {
        proof {
            assert(string_models(r@) + parse_spec(suffix) =~= models);
        }
    }
    proof {
        assert(string_models(r@) =~= parse_spec(input@));
    }
    r
}

/// A device configuration entry: display name, whether the device is
/// enabled, and the event tags it responds to, stored in canonical
/// form.
pub struct TkDeviceSettings {
    pub name: String,
    pub enabled: bool,
    pub events: Vec<String>,
}

/// Mathematical model of [`TkDeviceSettings`].
#[verifier::ext_equal]
pub struct TkDeviceSettingsModel {
    pub name: Seq<char>,
    pub enabled: bool,
    pub events: Seq<Seq<char>>,
}

impl View for TkDeviceSettings {
    type V = TkDeviceSettingsModel;

    open spec fn view(&self) -> TkDeviceSettingsModel {
        TkDeviceSettingsModel {
            name: self.name@,
            enabled: self.enabled,
            events: string_models(self.events@),
        }
    }
}

/// The models of a device configuration list.
pub open spec fn settings_models(s: Seq<TkDeviceSettings>) -> Seq<TkDeviceSettingsModel> {
    s.map_values(|d: TkDeviceSettings| d@)
}

/// A motion pattern to apply to the selected devices.
pub enum TkPattern {
    /// A steady stroke of the given strength for the given time.
    Linear { duration_ms: u64, strength: u32 },
    /// A named funscript played for the given time.
    Funscript { duration_ms: u64, name: String },
}

/// Mathematical model of [`TkPattern`].
#[verifier::ext_equal]
pub enum TkPatternModel {
    Linear { duration_ms: u64, strength: u32 },
    Funscript { duration_ms: u64, name: Seq<char> },
}

impl View for TkPattern {
    type V = TkPatternModel;

    open spec fn view(&self) -> TkPatternModel {
        match self {
            TkPattern::Linear { duration_ms, strength } => TkPatternModel::Linear {
                duration_ms: *duration_ms,
                strength: *strength,
            },
            TkPattern::Funscript { duration_ms, name } => TkPatternModel::Funscript {
                duration_ms: *duration_ms,
                name: name@,
            },
        }
    }
}

impl Clone for TkPattern {
    /// An exact copy: the clone has the same model as the original.
    fn clone(&self) -> (r: Self)
        ensures
            r@ == self@,
    {
        match self {
            TkPattern::Linear { duration_ms, strength } => TkPattern::Linear {
                duration_ms: *duration_ms,
                strength: *strength,
            },
            TkPattern::Funscript { duration_ms, name } => TkPattern::Funscript {
                duration_ms: *duration_ms,
                name: name.clone(),
            },
        }
    }
}

/// Copies a list of owned strings element by element.
fn clone_strings(v: &Vec<String>) -> (r: Vec<String>)
    ensures
        string_models(r@) == string_models(v@),
{
    let mut r: Vec<String> = Vec::new();
    let mut i: usize = 0;
    while i < v.len()
        invariant
            i <= v@.len(),
            string_models(r@) =~= string_models(v@).take(i as int),
        decreases v@.len() - i,
    {
        let ghost models = string_models(r@);
        r.push(v[i].clone());
        proof {
            assert(string_models(r@) =~= models.push(v@[i as int]@));
            assert(string_models(v@).take(i + 1) =~= models.push(v@[i as int]@));
        }
        i += 1;
    }
    proof {
        assert(string_models(v@).take(v@.len() as int) =~= string_models(v@));
    }
    r
}

/// The target set a pattern addresses: the resolved selector (device
/// display names), the pattern, and the original, pre-normalization
/// event list that produced the selection.
pub struct TkParams {
    pub selector: Vec<String>,
    pub pattern: TkPattern,
    pub events: Vec<String>,
}

/// Mathematical model of [`TkParams`].
#[verifier::ext_equal]
pub struct TkParamsModel {
    pub selector: Seq<Seq<char>>,
    pub pattern: TkPatternModel,
    pub events: Seq<Seq<char>>,
}

impl View for TkParams {
    type V = TkParamsModel;

    open spec fn view(&self) -> TkParamsModel {
        TkParamsModel {
            selector: string_models(self.selector@),
            pattern: self.pattern@,
            events: string_models(self.events@),
        }
    }
}

impl Clone for TkParams {
    /// An exact copy: the clone has the same model as the original.
    fn clone(&self) -> (r: Self)
        ensures
            r@ == self@,
    {
        let r = TkParams {
            selector: clone_strings(&self.selector),
            pattern: self.pattern.clone(),
            events: clone_strings(&self.events),
        };
        proof {
            assert(r@ =~= self@);
        }
        r
    }
}

/// Whether a configuration entry is selected for the given canonical
/// tag list: it must be enabled, and either the list is empty (match
/// everything) or one of the entry's own tags is asked for.
pub open spec fn selected(d: TkDeviceSettingsModel, tags: Seq<Seq<char>>) -> bool {
    d.enabled && (tags.len() == 0 || exists|k: int|
        0 <= k < d.events.len() && tags.contains(#[trigger] d.events[k]))
}

/// The names of the selected entries, in configuration order.
pub open spec fn selector_of(devs: Seq<TkDeviceSettingsModel>, tags: Seq<Seq<char>>) -> Seq<
    Seq<char>,
>
    decreases devs.len(),
{
    if devs.len() == 0 {
        Seq::empty()
    } else {
        let rest = selector_of(devs.drop_last(), tags);
        if selected(devs.last(), tags) {
            rest.push(devs.last().name)
        } else {
            rest
        }
    }
}

/// Whether `s` names one of the strings of `names`.
fn contains_string(names: &Vec<String>, s: &String) -> (r: bool)
    ensures
        r == string_models(names@).contains(s@),
{
    let mut l: usize = 0;
    while l < names.len()
        invariant
            l <= names@.len(),
            forall|l2: int| 0 <= l2 < l ==> #[trigger] string_models(names@)[l2] != s@,
        decreases names@.len() - l,
    {
        if names[l].eq(s) {
            proof {
                assert(string_models(names@)[l as int] == s@);
            }
            return true;
        }
        l += 1;
    }
    false
}

/// Whether any of the entry's own tags appears in the requested list.
fn matches_any(device_events: &Vec<String>, names: &Vec<String>) -> (r: bool)
    ensures
        r == exists|k: int|
            0 <= k < device_events@.len() && string_models(names@).contains(
                #[trigger] string_models(device_events@)[k],
            ),
{
    let mut k: usize = 0;
    while k < device_events.len()
        invariant
            k <= device_events@.len(),
            forall|k2: int|
                0 <= k2 < k ==> !string_models(names@).contains(
                    #[trigger] string_models(device_events@)[k2],
                ),
        decreases device_events@.len() - k,
    {
        if contains_string(names, &device_events[k]) {
            proof {
                assert(string_models(device_events@)[k as int] == device_events@[k as int]@);
            }
            return true;
        }
        k += 1;
    }
    false
}

impl TkParams {
    /// Resolves a pattern target set: normalizes the requested event
    /// tags, selects every enabled configuration entry that the
    /// normalized list asks for (an empty list asks for everything),
    /// and stores the surviving names as the selector, alongside the
    /// original event list and the pattern. Resolution never fails: an
    /// empty selector is a valid result.
    pub fn from_input(events: Vec<String>, pattern: TkPattern, devices: &Vec<TkDeviceSettings>) -> (r:
        TkParams)
        ensures
            r.events == events,
            r.pattern == pattern,
            string_models(r.selector@) == selector_of(
                settings_models(devices@),
                normalized_all(string_models(events@)),
            ),
    {
        let event_names = sanitize_name_list(&events);
        let ghost tags = string_models(event_names@);
        let mut selector: Vec<String> = Vec::new();
        let mut i: usize = 0;
        proof {
            assert(settings_models(devices@).take(0) =~= Seq::<TkDeviceSettingsModel>::empty());
            assert(string_models(selector@) =~= selector_of(
                settings_models(devices@).take(0),
                tags,
            ));
        }
        while i < devices.len()
            invariant
                i <= devices@.len(),
                tags == string_models(event_names@),
                string_models(selector@) == selector_of(
                    settings_models(devices@).take(i as int),
                    tags,
                ),
            decreases devices@.len() - i,
        {
            let ghost models = settings_models(devices@);
            let ghost names = string_models(selector@);
            let d = &devices[i];
            let keep = d.enabled && (event_names.len() == 0 || matches_any(
                &d.events,
                &event_names,
            ));
            proof {
                let dm = models[i as int];
                assert(dm == devices@[i as int]@);
                assert(dm.events == string_models(d.events@));
                assert(tags.len() == event_names@.len());
                assert((exists|k: int|
                    0 <= k < dm.events.len() && tags.contains(#[trigger] dm.events[k]))
                    == (exists|k: int|
                    0 <= k < d.events@.len() && string_models(event_names@).contains(
                        #[trigger] string_models(d.events@)[k],
                    )));
                assert(keep == selected(dm, tags));
            }
            if keep {
                selector.push(d.name.clone());
                proof {
                    assert(string_models(selector@) =~= names.push(models[i as int].name));
                }
            }
            proof {
                assert(models.take(i + 1).drop_last() =~= models.take(i as int));
                assert(models.take(i + 1).last() == models[i as int]);
                assert(string_models(selector@) == selector_of(models.take(i + 1), tags));
            }
            i += 1;
        }
        proof {
            assert(settings_models(devices@).take(devices@.len() as int) =~= settings_models(
                devices@,
            ));
        }
        TkParams { selector, pattern, events }
    }

    /// Whether a connected device may be addressed: its name must be in
    /// the selector, and it must advertise the scalar capability the
    /// pattern needs.
    pub open spec fn device_kept(d: DeviceAddedModel, selector: Seq<Seq<char>>) -> bool {
        selector.contains(d.name) && d.attributes.scalar_cmd is Some
    }

    /// The connected devices the pattern may address, in order.
    pub open spec fn filtered_devices(
        devs: Seq<DeviceAddedModel>,
        selector: Seq<Seq<char>>,
    ) -> Seq<DeviceAddedModel>
        decreases devs.len(),
    {
        if devs.len() == 0 {
            Seq::empty()
        } else {
            let rest = Self::filtered_devices(devs.drop_last(), selector);
            if Self::device_kept(devs.last(), selector) {
                rest.push(devs.last())
            } else {
                rest
            }
        }
    }

    /// Narrows a connected-device list to those the selector names and
    /// whose advertised capability set accepts the scalar commands the
    /// pattern issues.
    pub fn filter_devices(&self, devices: Vec<DeviceAdded>) -> (r: Vec<DeviceAdded>)
        ensures
            device_models(r@) == Self::filtered_devices(
                device_models(devices@),
                string_models(self.selector@),
            ),
    {
        let ghost selector = string_models(self.selector@);
        let mut r: Vec<DeviceAdded> = Vec::new();
        let mut i: usize = 0;
        proof {
            assert(device_models(devices@).take(0) =~= Seq::<DeviceAddedModel>::empty());
            assert(device_models(r@) =~= Self::filtered_devices(
                device_models(devices@).take(0),
                selector,
            ));
        }
        while i < devices.len()
            invariant
                i <= devices@.len(),
                selector == string_models(self.selector@),
                device_models(r@) == Self::filtered_devices(
                    device_models(devices@).take(i as int),
                    selector,
                ),
            decreases devices@.len() - i,
        {
            let ghost models = device_models(devices@);
            let ghost kept = device_models(r@);
            let d = &devices[i];
            let keep = contains_string(&self.selector, &d.name) && d.attributes.scalar_cmd.is_some();
            proof {
                assert(models[i as int] == devices@[i as int]@);
                assert(keep == Self::device_kept(models[i as int], selector));
            }
            if keep {
                r.push(d.clone());
                proof {
                    assert(device_models(r@) =~= kept.push(models[i as int]));
                }
            }
            proof {
                assert(models.take(i + 1).drop_last() =~= models.take(i as int));
                assert(models.take(i + 1).last() == models[i as int]);
                assert(device_models(r@) == Self::filtered_devices(models.take(i + 1), selector));
            }
            i += 1;
        }
        proof {
            assert(device_models(devices@).take(devices@.len() as int) =~= device_models(devices@));
        }
        r
    }
}

/// The names of the enabled entries, in configuration order.
pub open spec fn enabled_names(devs: Seq<TkDeviceSettingsModel>) -> Seq<Seq<char>>
    decreases devs.len(),
{
    if devs.len() == 0 {
        Seq::empty()
    } else {
        let rest = enabled_names(devs.drop_last());
        if devs.last().enabled {
            rest.push(devs.last().name)
        } else {
            rest
        }
    }
}

/// Law: resolving with an empty tag list selects every enabled device,
/// regardless of its tag set.
pub proof fn lemma_empty_tags_select_all_enabled(devs: Seq<TkDeviceSettingsModel>)
    ensures
        selector_of(devs, Seq::empty()) == enabled_names(devs),
    decreases devs.len(),
{
    if devs.len() > 0 {
        lemma_empty_tags_select_all_enabled(devs.drop_last());
    }
}

/// Law: resolving with a nonempty tag list that matches no device's
/// tags selects nothing.
pub proof fn lemma_unmatched_tags_select_none(
    devs: Seq<TkDeviceSettingsModel>,
    tags: Seq<Seq<char>>,
)
    requires
        tags.len() > 0,
        forall|i: int, k: int|
            0 <= i < devs.len() && 0 <= k < devs[i].events.len() ==> !tags.contains(
                #[trigger] devs[i].events[k],
            ),
    ensures
        selector_of(devs, tags) == Seq::<Seq<char>>::empty(),
    decreases devs.len(),
{
    if devs.len() > 0 {
        assert(forall|i: int|
            0 <= i < devs.len() - 1 ==> #[trigger] devs.drop_last()[i] == devs[i]);
        lemma_unmatched_tags_select_none(devs.drop_last(), tags);
        assert(!selected(devs.last(), tags)) by {
            assert(devs.last() == devs[devs.len() - 1]);
        }
    }
}

/// Law: resolution depends on the tag list only through membership:
/// two lists that contain the same tags, and are both empty or both
/// nonempty, resolve to the same selector; duplicates and order do not
/// matter.
pub proof fn lemma_resolution_membership_only(
    devs: Seq<TkDeviceSettingsModel>,
    tags1: Seq<Seq<char>>,
    tags2: Seq<Seq<char>>,
)
    requires
        (tags1.len() == 0) == (tags2.len() == 0),
        forall|t: Seq<char>| tags1.contains(t) == tags2.contains(t),
    ensures
        selector_of(devs, tags1) == selector_of(devs, tags2),
    decreases devs.len(),
{
    if devs.len() > 0 {
        lemma_resolution_membership_only(devs.drop_last(), tags1, tags2);
        assert(selected(devs.last(), tags1) == selected(devs.last(), tags2)) by {
            let d = devs.last();
            if exists|k: int| 0 <= k < d.events.len() && tags1.contains(#[trigger] d.events[k]) {
                let k = choose|k: int|
                    0 <= k < d.events.len() && tags1.contains(#[trigger] d.events[k]);
                assert(tags2.contains(d.events[k]));
            }
            if exists|k: int| 0 <= k < d.events.len() && tags2.contains(#[trigger] d.events[k]) {
                let k = choose|k: int|
                    0 <= k < d.events.len() && tags2.contains(#[trigger] d.events[k]);
                assert(tags1.contains(d.events[k]));
            }
        }
    }
}

} // verus!
