use vstd::prelude::*;

use crate::device::Device;
use crate::patterns::{
    any_pattern_matches, pattern_views, patterns_compile, regex_set_is_match, regex_set_new,
    set_patterns,
};

verus! {

/// Configured pattern sequences, one per filtering slot. Absent configuration
/// fields are represented by empty sequences.
pub struct FilterConfig {
    /// Keep devices whose name matches any of these regexes.
    pub include_names: Vec<String>,
    /// Keep devices whose description matches any of these regexes.
    pub include_descriptions: Vec<String>,
    /// Drop devices whose name matches any of these regexes.
    pub exclude_names: Vec<String>,
    /// Drop devices whose description matches any of these regexes.
    pub exclude_descriptions: Vec<String>,
}

impl Default for FilterConfig {
    /// The configuration used when no file is present: four empty sequences.
    fn default() -> (c: FilterConfig)
        ensures
            c.include_names@.len() == 0,
            c.include_descriptions@.len() == 0,
            c.exclude_names@.len() == 0,
            c.exclude_descriptions@.len() == 0,
    {
        FilterConfig {
            include_names: Vec::new(),
            include_descriptions: Vec::new(),
            exclude_names: Vec::new(),
            exclude_descriptions: Vec::new(),
        }
    }
}

/// Names the pattern sequence a compilation error came from.
#[derive(Clone, Copy, Debug, PartialEq, Eq, Structural)]
pub enum FilterField {
    IncludeNames,
    IncludeDescriptions,
    ExcludeNames,
    ExcludeDescriptions,
}

/// A configured pattern failed to compile. `sequence` says which of the four
/// pattern sequences held the bad pattern; `error` is the engine's own report,
/// which names the pattern itself.
#[derive(Debug)]
pub struct PatternError {
    pub sequence: FilterField,
    pub error: regex::Error,
}

/// Compiled include/exclude pattern-sets. A slot is present exactly when its
/// source sequence in the configuration was non-empty.
pub struct DeviceFilter {
    include_name: Option<regex::RegexSet>,
    include_desc: Option<regex::RegexSet>,
    exclude_name: Option<regex::RegexSet>,
    exclude_desc: Option<regex::RegexSet>,
}

/// The include decision: the name slot, when configured, decides alone; the
/// description slot is consulted only when no name patterns were configured at
/// all; with neither slot configured every device is included.
pub open spec fn want_include(
    inc_name: Option<Seq<Seq<char>>>,
    inc_desc: Option<Seq<Seq<char>>>,
    name: Seq<char>,
    desc: Seq<char>,
) -> bool {
    match inc_name {
        Some(pats) => any_pattern_matches(pats, name),
        None => match inc_desc {
            Some(pats) => any_pattern_matches(pats, desc),
            None => true,
        },
    }
}

/// The exclude decision, mirrored: name patterns shadow description patterns;
/// with neither configured no device is excluded.
pub open spec fn want_exclude(
    exc_name: Option<Seq<Seq<char>>>,
    exc_desc: Option<Seq<Seq<char>>>,
    name: Seq<char>,
    desc: Seq<char>,
) -> bool {
    match exc_name {
        Some(pats) => any_pattern_matches(pats, name),
        None => match exc_desc {
            Some(pats) => any_pattern_matches(pats, desc),
            None => false,
        },
    }
}

/// The whole filtering policy: include wanted and not excluded.
///
/// Note the possibly surprising "first configured wins" shape: the name and
/// description slots of a side do not combine with OR or AND — a configured
/// name slot decides that side alone, and the description slot is consulted
/// only when no name patterns exist at all. This precedence is observable
/// behavior and deliberate.
pub open spec fn filter_decision(
    inc_name: Option<Seq<Seq<char>>>,
    inc_desc: Option<Seq<Seq<char>>>,
    exc_name: Option<Seq<Seq<char>>>,
    exc_desc: Option<Seq<Seq<char>>>,
    name: Seq<char>,
    desc: Seq<char>,
) -> bool {
    want_include(inc_name, inc_desc, name, desc) && !want_exclude(exc_name, exc_desc, name, desc)
}

/// The slot a pattern sequence compiles to: absent when empty, else the
/// sequence of its patterns.
pub open spec fn slot_spec(v: Seq<String>) -> Option<Seq<Seq<char>>> {
    if v.len() == 0 {
        None
    } else {
        Some(pattern_views(v))
    }
}

/// Whether compiling a pattern sequence succeeds: an empty sequence always
/// does, a non-empty one exactly when the engine accepts all its patterns.
pub open spec fn slot_compiles(v: Seq<String>) -> bool {
    v.len() == 0 || patterns_compile(pattern_views(v))
}

/// Compiles one pattern sequence into its optional pattern-set.
fn compile_slot(v: &Vec<String>) -> (r: Result<Option<regex::RegexSet>, regex::Error>)
    ensures
        r is Ok <==> slot_compiles(v@),
        r matches Ok(o) ==> match o {
            Some(rs) => v@.len() > 0 && set_patterns(rs) == pattern_views(v@),
            None => v@.len() == 0,
        },
{
    if v.len() == 0 {
        Ok(None)
    } else {
        match regex_set_new(v) {
            Ok(rs) => Ok(Some(rs)),
            Err(e) => Err(e),
        }
    }
}

impl DeviceFilter {
    /// The patterns of the include-name slot, absent when none were configured.
    pub closed spec fn include_name_pats(&self) -> Option<Seq<Seq<char>>> {
        match self.include_name {
            Some(rs) => Some(set_patterns(rs)),
            None => None,
        }
    }

    /// The patterns of the include-description slot.
    pub closed spec fn include_desc_pats(&self) -> Option<Seq<Seq<char>>> {
        match self.include_desc {
            Some(rs) => Some(set_patterns(rs)),
            None => None,
        }
    }

    /// The patterns of the exclude-name slot.
    pub closed spec fn exclude_name_pats(&self) -> Option<Seq<Seq<char>>> {
        match self.exclude_name {
            Some(rs) => Some(set_patterns(rs)),
            None => None,
        }
    }

    /// The patterns of the exclude-description slot.
    pub closed spec fn exclude_desc_pats(&self) -> Option<Seq<Seq<char>>> {
        match self.exclude_desc {
            Some(rs) => Some(set_patterns(rs)),
            None => None,
        }
    }

    /// The filtering policy applied to one device's name and description.
    pub open spec fn spec_filter(&self, name: Seq<char>, desc: Seq<char>) -> bool {
        filter_decision(
            self.include_name_pats(),
            self.include_desc_pats(),
            self.exclude_name_pats(),
            self.exclude_desc_pats(),
            name,
            desc,
        )
    }

    /// Compiles a configuration into a filter. Succeeds exactly when every
    /// non-empty pattern sequence compiles; each compiled slot then holds
    /// exactly the configured patterns of its sequence. On failure the error
    /// names the first sequence (in configuration order) that failed, and no
    /// filter is produced — no device is ever evaluated against a partly
    /// compiled configuration.
    pub fn from_config(conf: &FilterConfig) -> (r: Result<DeviceFilter, PatternError>)
        ensures
            r is Ok <==> {
                &&& slot_compiles(conf.include_names@)
                &&& slot_compiles(conf.include_descriptions@)
                &&& slot_compiles(conf.exclude_names@)
                &&& slot_compiles(conf.exclude_descriptions@)
            },
            r matches Ok(f) ==> {
                &&& f.include_name_pats() == slot_spec(conf.include_names@)
                &&& f.include_desc_pats() == slot_spec(conf.include_descriptions@)
                &&& f.exclude_name_pats() == slot_spec(conf.exclude_names@)
                &&& f.exclude_desc_pats() == slot_spec(conf.exclude_descriptions@)
            },
            r matches Err(e) ==> {
                &&& (e.sequence == FilterField::IncludeNames <==> !slot_compiles(
                    conf.include_names@,
                ))
                &&& (e.sequence == FilterField::IncludeDescriptions <==> slot_compiles(
                    conf.include_names@,
                ) && !slot_compiles(conf.include_descriptions@))
                &&& (e.sequence == FilterField::ExcludeNames <==> slot_compiles(
                    conf.include_names@,
                ) && slot_compiles(conf.include_descriptions@) && !slot_compiles(
                    conf.exclude_names@,
                ))
                &&& (e.sequence == FilterField::ExcludeDescriptions <==> slot_compiles(
                    conf.include_names@,
                ) && slot_compiles(conf.include_descriptions@) && slot_compiles(
                    conf.exclude_names@,
                ) && !slot_compiles(conf.exclude_descriptions@))
            },
    {
        let include_name = match compile_slot(&conf.include_names) {
            Ok(o) => o,
            Err(e) => {
                return Err(PatternError { sequence: FilterField::IncludeNames, error: e });
            },
        };
        let include_desc = match compile_slot(&conf.include_descriptions) {
            Ok(o) => o,
            Err(e) => {
                return Err(PatternError { sequence: FilterField::IncludeDescriptions, error: e });
            },
        };
        let exclude_name = match compile_slot(&conf.exclude_names) {
            Ok(o) => o,
            Err(e) => {
                return Err(PatternError { sequence: FilterField::ExcludeNames, error: e });
            },
        };
        let exclude_desc = match compile_slot(&conf.exclude_descriptions) {
            Ok(o) => o,
            Err(e) => {
                return Err(PatternError { sequence: FilterField::ExcludeDescriptions, error: e });
            },
        };
        Ok(DeviceFilter { include_name, include_desc, exclude_name, exclude_desc })
    }

    /// Evaluates the policy on one device: pure, total, never fails.
    pub fn filter(&self, dev: &Device) -> (keep: bool)
        ensures
            keep == self.spec_filter(dev.name@, dev.desc@),
    {
        let want_include: bool = match &self.include_name {
            Some(rs) => regex_set_is_match(rs, dev.name.as_str()),
            None => match &self.include_desc {
                Some(rs) => regex_set_is_match(rs, dev.desc.as_str()),
                None => true,
            },
        };
        let want_exclude: bool = match &self.exclude_name {
            Some(rs) => regex_set_is_match(rs, dev.name.as_str()),
            None => match &self.exclude_desc {
                Some(rs) => regex_set_is_match(rs, dev.desc.as_str()),
                None => false,
            },
        };
        want_include && !want_exclude
    }
}

/// The devices the filter keeps, in their original order: a stable subsequence
/// selection, never a reordering.
pub open spec fn spec_filter_seq(f: DeviceFilter, devs: Seq<Device>) -> Seq<Device> {
    devs.filter(|d: Device| f.spec_filter(d.name@, d.desc@))
}

impl DeviceFilter {
    /// Keeps exactly the devices the policy accepts, preserving their order.
    pub fn filter_devices(&self, devs: &Vec<Device>) -> (kept: Vec<Device>)
        ensures
            kept@ == spec_filter_seq(*self, devs@),
    {
        let mut kept: Vec<Device> = Vec::new();
        let mut i: usize = 0;
        while i < devs.len()
            invariant
                i <= devs@.len(),
                kept@ == spec_filter_seq(*self, devs@.take(i as int)),
            decreases devs@.len() - i,
        {
            let ghost pre = devs@.take(i as int);
            if self.filter(&devs[i]) {
                kept.push(devs[i].clone());
            }
            i = i + 1;
            proof {
                reveal_with_fuel(Seq::<_>::filter, 2);
                let s = devs@.take(i as int);
                assert(s.len() > 0);
                assert(s.drop_last() =~= pre);
                assert(s.last() == devs@[i - 1]);
                assert(spec_filter_seq(*self, s) == if self.spec_filter(
                    devs@[i - 1].name@,
                    devs@[i - 1].desc@,
                ) {
                    spec_filter_seq(*self, pre).push(devs@[i - 1])
                } else {
                    spec_filter_seq(*self, pre)
                });
            }
        }
        proof {
            assert(devs@.take(devs@.len() as int) =~= devs@);
        }
        kept
    }
}

/// With no patterns configured at all, every device passes the filter.
pub proof fn lemma_filter_no_patterns(name: Seq<char>, desc: Seq<char>)
    ensures
        filter_decision(None, None, None, None, name, desc),
{
}

/// When include-name patterns are configured and nothing is excluded, the
/// filter is exactly the include-name match — whatever the
/// include-description slot holds, it is never consulted.
pub proof fn lemma_include_name_shadows(
    inc_name: Seq<Seq<char>>,
    inc_desc: Option<Seq<Seq<char>>>,
    name: Seq<char>,
    desc: Seq<char>,
)
    ensures
        filter_decision(Some(inc_name), inc_desc, None, None, name, desc) == any_pattern_matches(
            inc_name,
            name,
        ),
{
}

/// When only exclude-description patterns are configured, the filter is
/// exactly the negated exclude-description match.
pub proof fn lemma_exclude_desc_only(exc_desc: Seq<Seq<char>>, name: Seq<char>, desc: Seq<char>)
    ensures
        filter_decision(None, None, None, Some(exc_desc), name, desc) == !any_pattern_matches(
            exc_desc,
            desc,
        ),
{
}

} // verus!
