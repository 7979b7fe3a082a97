use vstd::prelude::*;

use crate::error::JastorError;
use crate::event::raw::EventType;
use crate::event::flags::{Difficulty, RaidMarker};
use crate::event::raw::{Affix, AuraType, MissType, PowerType, SpellSchool};
use crate::event::{AdvancedParameters, Event, SpellInfo, Unit, spec_advanced_matches,
    spec_advanced_ok, spec_spell_info_matches, spec_spell_info_ok, spec_unit_matches,
    spec_unit_ok};
use crate::util::param_handler::{
    ArgumentHandler, ParameterHandler, SliceHander, find_char, spec_fractional, spec_split_first,
    spec_strip_quotes, spec_suffix, spec_token_bool, spec_token_int_in, spec_token_nat_in,
    spec_tokenize, views_of,
};

verus! {

// ---------------------------------------------------------------------------
// Splitting a line into timestamp, tag and arguments
// ---------------------------------------------------------------------------

/// Splits `s` at the first run of two consecutive spaces: the part before it
/// and the part after it, neither containing those two spaces.
pub open spec fn spec_split_double_space(s: Seq<char>) -> Option<(Seq<char>, Seq<char>)>
    decreases s.len(),
{
    if s.len() < 2 {
        None
    } else if s[0] == ' ' && s[1] == ' ' {
        Some((Seq::empty(), s.skip(2)))
    } else {
        match spec_split_double_space(s.drop_first()) {
            Some(p) => Some((seq![s[0]] + p.0, p.1)),
            None => None,
        }
    }
}

proof fn lemma_split_double_space_at(s: Seq<char>, i: int)
    requires
        0 <= i,
        i + 1 < s.len(),
        s[i] == ' ',
        s[i + 1] == ' ',
        forall|k: int| 0 <= k < i ==> !(#[trigger] s[k] == ' ' && s[k + 1] == ' '),
    ensures
        spec_split_double_space(s) == Some((s.take(i), s.skip(i + 2))),
    decreases i,
{
    if i == 0 {
        assert(s.take(0) =~= Seq::<char>::empty());
    } else {
        lemma_split_double_space_at(s.drop_first(), i - 1);
        assert(seq![s[0]] + s.drop_first().take(i - 1) =~= s.take(i));
        assert(s.drop_first().skip(i + 1) =~= s.skip(i + 2));
    }
}

proof fn lemma_split_double_space_none(s: Seq<char>)
    requires
        forall|k: int| 0 <= k && k + 1 < s.len() ==> !(#[trigger] s[k] == ' ' && s[k + 1] == ' '),
    ensures
        spec_split_double_space(s) is None,
    decreases s.len(),
{
    if s.len() >= 2 {
        lemma_split_double_space_none(s.drop_first());
    }
}

/// The index of the first run of two consecutive spaces in `s`, if any.
fn find_double_space(s: &str) -> (r: Option<usize>)
    ensures
        match r {
            Some(i) => i + 1 < s@.len() && spec_split_double_space(s@) == Some(
                (s@.take(i as int), s@.skip(i as int + 2)),
            ),
            None => spec_split_double_space(s@) is None,
        },
{
    let n = s.unicode_len();
    if n < 2 {
        proof {
            lemma_split_double_space_none(s@);
        }
        return None;
    }
    let mut i: usize = 0;
    while i < n - 1
        invariant
            i <= n - 1,
            n >= 2,
            n == s@.len(),
            forall|k: int| 0 <= k < i ==> !(#[trigger] s@[k] == ' ' && s@[k + 1] == ' '),
        decreases n - i,
    {
        if s.get_char(i) == ' ' && s.get_char(i + 1) == ' ' {
            proof {
                lemma_split_double_space_at(s@, i as int);
            }
            return Some(i);
        }
        i += 1;
    }
    proof {
        lemma_split_double_space_none(s@);
    }
    None
}

// ---------------------------------------------------------------------------
// Timestamps and affix lists: the two outside calls of the decoder
// ---------------------------------------------------------------------------

/// The Unix timestamp, in seconds, that the timestamp text denotes under the
/// `month/day/year hour:minute:second[.fraction]` format, or nothing when the
/// text does not match that format.
pub uninterp spec fn chrono_timestamp(s: Seq<char>) -> Option<i64>;

/// Relies on chrono::NaiveDateTime::parse_from_str with the
/// `%m/%d/%Y %H:%M:%S%.f` format, followed by chrono's DateTime::timestamp on
/// the parsed value taken as UTC.  Whether the text parses, and the resulting
/// second count, are functions of the text alone.
#[verifier::external_body]
fn parse_timestamp(s: &str) -> (r: Option<i64>)
    ensures
        r == chrono_timestamp(s@),
{
    match chrono::NaiveDateTime::parse_from_str(s, "%m/%d/%Y %H:%M:%S%.f") {
        Ok(dt) => Some(dt.and_utc().timestamp()),
        Err(_) => None,
    }
}

/// The list of numbers that the text denotes as a JSON array of 16-bit
/// unsigned integers, or nothing when it is not one.
pub uninterp spec fn json_u16_list(s: Seq<char>) -> Option<Seq<u16>>;

/// Relies on serde_json::from_str::<Vec<u16>>: parses a JSON array of numbers
/// that fit in sixteen bits.  Whether the text parses, and the numbers, are
/// functions of the text alone.
#[verifier::external_body]
fn parse_affix_ids(s: &str) -> (r: Option<Vec<u16>>)
    ensures
        r matches Some(v) ==> json_u16_list(s@) == Some(v@),
        r is None ==> json_u16_list(s@) is None,
{
    serde_json::from_str::<Vec<u16>>(s).ok()
}

// ---------------------------------------------------------------------------
// The event parser
// ---------------------------------------------------------------------------

/// One line of the log, split into its timestamp, its classified tag and its
/// tokenized argument fields.
#[derive(Debug, Clone)]
pub struct EventParser {
    pub timestamp: i64,
    pub event_type: EventType,
    pub handler: ArgumentHandler,
}

impl EventParser {
    /// Splits a line into timestamp, tag and arguments, parses the timestamp,
    /// classifies the tag and tokenizes the arguments.  Fails when the line
    /// has no double-space separator, no comma after the tag, a timestamp
    /// that does not match the format, or a tag the registry does not know.
    pub fn new(args: &str) -> (r: Result<EventParser, JastorError>)
        ensures
            match spec_split_double_space(args@) {
                None => r matches Err(e) && e matches JastorError::ParseError(_),
                Some((ts, event)) => match spec_split_first(event, ',') {
                    None => r matches Err(e) && e matches JastorError::ParseError(_),
                    Some((tag, rest)) => match chrono_timestamp(ts) {
                        None => r matches Err(e) && e matches JastorError::ParseError(_),
                        Some(t) => match EventType::spec_of_tag(tag) {
                            None => r matches Err(e) && (e matches JastorError::UnknownEvent(x)
                                && x@ == tag),
                            Some(et) => r matches Ok(p) && p.timestamp == t && p.event_type == et
                                && views_of(p.handler.params@) == spec_tokenize(rest),
                        },
                    },
                },
            },
    {
        let n = args.unicode_len();
        let i = match find_double_space(args) {
            Some(i) => i,
            None => {
                let mut m = String::from_str("expected timestamp with 2 spaces - got ");
                m.append(args);
                return Err(JastorError::ParseError(m));
            },
        };
        let timestamp_part = args.substring_char(0, i);
        let event = args.substring_char(i + 2, n);
        proof {
            assert(timestamp_part@ =~= args@.take(i as int));
            assert(event@ =~= args@.skip(i as int + 2));
        }
        let en = event.unicode_len();
        let k = match find_char(event, ',') {
            Some(k) => k,
            None => {
                let mut m = String::from_str("expected event type to be present - got ");
                m.append(event);
                return Err(JastorError::ParseError(m));
            },
        };
        let tag = event.substring_char(0, k);
        let rest = event.substring_char(k + 1, en);
        proof {
            assert(tag@ =~= event@.take(k as int));
            assert(rest@ =~= event@.skip(k as int + 1));
        }
        let timestamp = match parse_timestamp(timestamp_part) {
            Some(t) => t,
            None => {
                let mut m = String::from_str("unable to parse timestamp string: ");
                m.append(timestamp_part);
                return Err(JastorError::ParseError(m));
            },
        };
        let event_type = EventType::from_str(tag)?;
        Ok(EventParser { timestamp, event_type, handler: ArgumentHandler::new(rest) })
    }

    /// The parsed timestamp, as a Unix second count.
    pub fn timestamp(&self) -> (r: i64)
        ensures
            r == self.timestamp,
    {
        self.timestamp
    }

    /// Whether this line's tag is recognized but deliberately left undecoded.
    pub fn skip(&self) -> (r: bool)
        ensures
            r == self.event_type.spec_skip(),
    {
        self.event_type.skip()
    }
}

// ---------------------------------------------------------------------------
// Relations between a field list and the assembled pieces
// ---------------------------------------------------------------------------

/// Whether the source side of the base window decodes to `u`: present exactly
/// when its four fields decode.
pub open spec fn spec_source_rel(ps: Seq<String>, u: Option<Unit>) -> bool {
    let w = views_of(ps).subrange(0, 4);
    &&& (u is Some <==> spec_unit_ok(w))
    &&& (u matches Some(x) ==> spec_unit_matches(w, x))
}

/// Whether the target side of the base window decodes to `u`.
pub open spec fn spec_target_rel(ps: Seq<String>, u: Option<Unit>) -> bool {
    let w = views_of(ps).subrange(4, 8)
    ;
    &&& (u is Some <==> spec_unit_ok(w))
    &&& (u matches Some(x) ==> spec_unit_matches(w, x))
}

/// Whether the prefix window of the tag's layout exists and, for spell-style
/// tags, decodes as a spell.  The one-field environmental window only has to
/// exist: it holds a damage-type name, not a spell.
pub open spec fn spec_prefix_ok(ps: Seq<String>, et: EventType) -> bool {
    let n = et.spec_prefix_parameters();
    let idx = if n == 0 {
        8int
    } else {
        8 + n as int - 1
    };
    &&& idx < ps.len()
    &&& (n == 3 ==> spec_spell_info_ok(views_of(ps).subrange(8, 8 + n as int)))
}

/// Whether the prefix window decodes to `si`: the decoded spell for the
/// three-field spell prefix, nothing for every other layout.
pub open spec fn spec_prefix_rel(ps: Seq<String>, et: EventType, si: Option<SpellInfo>) -> bool {
    let n = et.spec_prefix_parameters();
    if n == 3 {
        si matches Some(x) && spec_spell_info_matches(views_of(ps).subrange(8, 8 + n as int), x)
    } else {
        si is None
    }
}

/// Where the advanced window of the tag's layout starts.
pub open spec fn spec_advanced_start(et: EventType) -> int {
    8 + et.spec_prefix_parameters() as int
}

/// Whether the advanced window of the tag's layout, when the layout has one,
/// fits and decodes.
pub open spec fn spec_advanced_window_ok(ps: Seq<String>, et: EventType) -> bool {
    et.spec_has_advanced_parameters() ==> {
        let start = spec_advanced_start(et);
        &&& start + 19 <= ps.len()
        &&& spec_advanced_ok(views_of(ps).subrange(start, start + 19))
    }
}

/// Whether the advanced window decodes to `a`: nothing for layouts without
/// one, the decoded snapshot otherwise.
pub open spec fn spec_advanced_rel(ps: Seq<String>, et: EventType, a: Option<
    AdvancedParameters,
>) -> bool {
    if et.spec_has_advanced_parameters() {
        let start = spec_advanced_start(et);
        a matches Some(x) && spec_advanced_matches(views_of(ps).subrange(start, start + 19), x)
    } else {
        a is None
    }
}

/// Whether the windows every combat-category event needs are present: the
/// base window, and the advanced window when the layout carries one.
pub open spec fn spec_frame_ok(ps: Seq<String>, et: EventType) -> bool {
    &&& ps.len() > 8
    &&& spec_advanced_window_ok(ps, et)
}

/// The suffix window of the field list, as character sequences.
pub open spec fn spec_suffix_views(ps: Seq<String>, et: EventType) -> Seq<Seq<char>> {
    views_of(spec_suffix(ps, et))
}

impl EventParser {
    /// The source and target units of a combat-category line: either side is
    /// absent exactly when its four fields do not decode.
    pub fn units(&self) -> (r: Result<(Option<Unit>, Option<Unit>), JastorError>)
        ensures
            r is Ok <==> self.handler.params@.len() > 8,
            r matches Ok(p) ==> spec_source_rel(self.handler.params@, p.0) && spec_target_rel(
                self.handler.params@,
                p.1,
            ),
            r matches Err(e) ==> e matches JastorError::GenericError(_),
    {
        let base = self.handler.base_params()?;
        let s4 = vstd::slice::slice_subrange(base, 0, 4);
        let t4 = vstd::slice::slice_subrange(base, 4, 8);
        proof {
            assert(s4@ =~= self.handler.params@.subrange(0, 4));
            assert(t4@ =~= self.handler.params@.subrange(4, 8));
            crate::util::param_handler::lemma_views_of_subrange(self.handler.params@, 0, 4);
            crate::util::param_handler::lemma_views_of_subrange(self.handler.params@, 4, 8);
        }
        let source = match Unit::parse(s4) {
            Ok(u) => Some(u),
            Err(_) => None,
        };
        let target = match Unit::parse(t4) {
            Ok(u) => Some(u),
            Err(_) => None,
        };
        Ok((source, target))
    }

    /// The spell named by the three-field prefix window.  Layouts with no
    /// prefix, and the one-field environmental window, name no spell.
    pub fn spell_prefix(&self) -> (r: Result<Option<SpellInfo>, JastorError>)
        ensures
            r is Ok <==> spec_prefix_ok(self.handler.params@, self.event_type),
            r matches Ok(o) ==> spec_prefix_rel(self.handler.params@, self.event_type, o),
    {
        let prefix = self.handler.prefix_parameters(self.event_type)?;
        if prefix.len() != 3 {
            return Ok(None);
        }
        proof {
            crate::util::param_handler::lemma_views_of_subrange(
                self.handler.params@,
                8,
                8 + self.event_type.spec_prefix_parameters() as int,
            );
        }
        Ok(Some(SpellInfo::parse(prefix)?))
    }

    /// The advanced unit-state snapshot, for layouts that carry one.
    pub fn advanced(&self) -> (r: Result<Option<AdvancedParameters>, JastorError>)
        ensures
            r is Ok <==> spec_advanced_window_ok(self.handler.params@, self.event_type),
            r matches Ok(o) ==> spec_advanced_rel(self.handler.params@, self.event_type, o),
    {
        let w = self.handler.advanced_parameters(self.event_type)?;
        proof {
            if self.event_type.spec_has_advanced_parameters() {
                let start = spec_advanced_start(self.event_type);
                crate::util::param_handler::lemma_views_of_subrange(
                    self.handler.params@,
                    start,
                    start + 19,
                );
            }
        }
        AdvancedParameters::parse(w)
    }

    /// The suffix window: every field after the windows above.
    pub fn suffix(&self) -> (r: Result<&[String], JastorError>)
        ensures
            r matches Ok(s) && s@ == spec_suffix(self.handler.params@, self.event_type),
    {
        self.handler.suffix_parameters(self.event_type)
    }
}

} // verus!

verus! {

// ---------------------------------------------------------------------------
// Shorthand readings of one suffix field
// ---------------------------------------------------------------------------

pub open spec fn spec_isize_ok(w: Seq<Seq<char>>, i: int) -> bool {
    i < w.len() && spec_token_int_in(w[i], isize::MIN as int, isize::MAX as int) is Some
}

pub open spec fn spec_isize_at(w: Seq<Seq<char>>, i: int) -> int {
    spec_token_int_in(w[i], isize::MIN as int, isize::MAX as int)->Some_0
}

pub open spec fn spec_nat_ok(w: Seq<Seq<char>>, i: int, max: nat) -> bool {
    i < w.len() && spec_token_nat_in(w[i], max) is Some
}

pub open spec fn spec_nat_at(w: Seq<Seq<char>>, i: int, max: nat) -> nat {
    spec_token_nat_in(w[i], max)->Some_0
}

pub open spec fn spec_bool_ok(w: Seq<Seq<char>>, i: int) -> bool {
    i < w.len() && spec_token_bool(w[i]) is Some
}

pub open spec fn spec_bool_at(w: Seq<Seq<char>>, i: int) -> bool {
    spec_token_bool(w[i])->Some_0
}

pub open spec fn spec_string_at(w: Seq<Seq<char>>, i: int) -> Seq<char> {
    spec_strip_quotes(w[i])
}

// ---------------------------------------------------------------------------
// The combat-category families and their per-tag suffix interpretation
// ---------------------------------------------------------------------------

pub open spec fn spec_is_damage(et: EventType) -> bool {
    match et {
        EventType::SpellDamage
        | EventType::SpellDamageSupport
        | EventType::SpellPeriodicDamageSupport
        | EventType::SpellPeriodicDamage
        | EventType::SpellBuildingDamage
        | EventType::RangeDamage
        | EventType::SwingDamage
        | EventType::DamageSplit
        | EventType::DamageShield
        | EventType::SwingDamageLanded => true,
        _ => false,
    }
}

/// The damage tags whose trailing field is a damage-type name.
pub open spec fn spec_has_damage_type(et: EventType) -> bool {
    match et {
        EventType::SpellDamage | EventType::SpellPeriodicDamage | EventType::RangeDamage => true,
        _ => false,
    }
}

/// The damage tags whose trailing field is a supporting unit id instead.
pub open spec fn spec_has_damage_support(et: EventType) -> bool {
    match et {
        EventType::SpellDamageSupport | EventType::SpellPeriodicDamageSupport => true,
        _ => false,
    }
}

pub open spec fn spec_damage_ok(ps: Seq<String>, et: EventType) -> bool {
    let w = spec_suffix_views(ps, et);
    &&& spec_frame_ok(ps, et)
    &&& spec_prefix_ok(ps, et)
    &&& spec_isize_ok(w, 0)
    &&& spec_isize_ok(w, 1)
    &&& spec_isize_ok(w, 2)
    &&& spec_nat_ok(w, 3, u8::MAX as nat)
    &&& spec_isize_ok(w, 4)
    &&& spec_isize_ok(w, 5)
    &&& spec_isize_ok(w, 6)
    &&& spec_bool_ok(w, 7)
    &&& spec_bool_ok(w, 8)
    &&& spec_bool_ok(w, 9)
    &&& (spec_has_damage_type(et) ==> 10 < w.len())
    &&& (spec_has_damage_support(et) ==> 10 < w.len())
}

pub open spec fn spec_damage_matches(ps: Seq<String>, et: EventType, e: Event) -> bool {
    let w = spec_suffix_views(ps, et);
    e matches Event::Damage {
        source,
        target,
        advanced,
        spell_info,
        amount,
        base_amount,
        overkill,
        school,
        resisted,
        blocked,
        absorbed,
        critical,
        glancing,
        is_offhand,
        damage_type,
        support_guid,
    } && {
        &&& spec_source_rel(ps, source)
        &&& spec_target_rel(ps, target)
        &&& spec_advanced_rel(ps, et, advanced)
        &&& spec_prefix_rel(ps, et, spell_info)
        &&& amount as int == spec_isize_at(w, 0)
        &&& base_amount as int == spec_isize_at(w, 1)
        &&& overkill as int == spec_isize_at(w, 2)
        &&& school == SpellSchool::spec_from_u8(spec_nat_at(w, 3, u8::MAX as nat) as u8)
        &&& resisted as int == spec_isize_at(w, 4)
        &&& blocked as int == spec_isize_at(w, 5)
        &&& absorbed as int == spec_isize_at(w, 6)
        &&& critical == spec_bool_at(w, 7)
        &&& glancing == spec_bool_at(w, 8)
        &&& is_offhand == spec_bool_at(w, 9)
        &&& if spec_has_damage_type(et) {
            damage_type matches Some(t) && t@ == w[10]
        } else {
            damage_type is None
        }
        &&& if spec_has_damage_support(et) {
            support_guid matches Some(t) && t@ == spec_string_at(w, 10)
        } else {
            support_guid is None
        }
    }
}

pub open spec fn spec_is_miss(et: EventType) -> bool {
    match et {
        EventType::SpellMissed
        | EventType::SpellPeriodicMissed
        | EventType::SpellBuildingMissed
        | EventType::DamageShieldMissed
        | EventType::RangeMissed
        | EventType::SwingMissed => true,
        _ => false,
    }
}

pub open spec fn spec_miss_ok(ps: Seq<String>, et: EventType) -> bool {
    let w = spec_suffix_views(ps, et);
    &&& spec_frame_ok(ps, et)
    &&& spec_prefix_ok(ps, et)
    &&& 0 < w.len()
    &&& MissType::spec_of_str(w[0]) is Some
    &&& spec_bool_ok(w, 1)
    &&& (MissType::spec_of_str(w[0]) == Some(MissType::Absorb) ==> spec_isize_ok(w, 2)
        && spec_isize_ok(w, 3) && spec_bool_ok(w, 4))
}

pub open spec fn spec_miss_matches(ps: Seq<String>, et: EventType, e: Event) -> bool {
    let w = spec_suffix_views(ps, et);
    e matches Event::Miss {
        source,
        target,
        spell_info,
        advanced,
        miss_type,
        is_offhand,
        amount,
        total_amount,
        critical,
    } && {
        &&& spec_source_rel(ps, source)
        &&& spec_target_rel(ps, target)
        &&& spec_advanced_rel(ps, et, advanced)
        &&& spec_prefix_rel(ps, et, spell_info)
        &&& Some(miss_type) == MissType::spec_of_str(w[0])
        &&& is_offhand == spec_bool_at(w, 1)
        &&& if miss_type is Absorb {
            &&& amount as int == spec_isize_at(w, 2)
            &&& total_amount as int == spec_isize_at(w, 3)
            &&& critical == spec_bool_at(w, 4)
        } else {
            amount == 0 && total_amount == 0 && !critical
        }
    }
}

pub open spec fn spec_is_heal(et: EventType) -> bool {
    match et {
        EventType::SpellHeal
        | EventType::SpellPeriodicHeal
        | EventType::SpellBuildingHeal
        | EventType::SpellHealSupport
        | EventType::SpellPeriodicHealSupport => true,
        _ => false,
    }
}

/// The heal tags whose trailing field is a supporting unit id.
pub open spec fn spec_has_heal_support(et: EventType) -> bool {
    match et {
        EventType::SpellHealSupport | EventType::SpellPeriodicHealSupport => true,
        _ => false,
    }
}

pub open spec fn spec_heal_ok(ps: Seq<String>, et: EventType) -> bool {
    let w = spec_suffix_views(ps, et);
    &&& spec_frame_ok(ps, et)
    &&& spec_prefix_ok(ps, et)
    &&& spec_isize_ok(w, 0)
    &&& spec_isize_ok(w, 1)
    &&& spec_isize_ok(w, 2)
    &&& spec_isize_ok(w, 3)
    &&& spec_bool_ok(w, 4)
    &&& (spec_has_heal_support(et) ==> 5 < w.len())
}

pub open spec fn spec_heal_matches(ps: Seq<String>, et: EventType, e: Event) -> bool {
    let w = spec_suffix_views(ps, et);
    e matches Event::Heal {
        source,
        target,
        spell_info,
        advanced,
        amount,
        base_amount,
        overhealing,
        absorbed,
        critical,
        support_guid,
    } && {
        &&& spec_source_rel(ps, source)
        &&& spec_target_rel(ps, target)
        &&& spec_advanced_rel(ps, et, advanced)
        &&& spec_prefix_rel(ps, et, spell_info)
        &&& amount as int == spec_isize_at(w, 0)
        &&& base_amount as int == spec_isize_at(w, 1)
        &&& overhealing as int == spec_isize_at(w, 2)
        &&& absorbed as int == spec_isize_at(w, 3)
        &&& critical == spec_bool_at(w, 4)
        &&& if spec_has_heal_support(et) {
            support_guid matches Some(t) && t@ == spec_string_at(w, 5)
        } else {
            support_guid is None
        }
    }
}

pub open spec fn spec_is_absorb(et: EventType) -> bool {
    match et {
        EventType::SpellAbsorbed | EventType::SpellPeriodicAbsorbed => true,
        _ => false,
    }
}

/// The window an absorb event reads: the ordinary suffix when the spell
/// prefix is present, everything after the base window when the source log
/// elided the prefix.
pub open spec fn spec_absorb_window(ps: Seq<String>, et: EventType) -> Seq<Seq<char>> {
    if spec_prefix_ok(ps, et) {
        spec_suffix_views(ps, et)
    } else {
        views_of(ps).subrange(8, ps.len() as int)
    }
}

pub open spec fn spec_absorb_ok(ps: Seq<String>, et: EventType) -> bool {
    let w = spec_absorb_window(ps, et);
    &&& spec_frame_ok(ps, et)
    &&& spec_isize_ok(w, 7)
    &&& spec_isize_ok(w, 8)
    &&& spec_bool_ok(w, 9)
}

pub open spec fn spec_absorb_matches(ps: Seq<String>, et: EventType, e: Event) -> bool {
    let w = spec_absorb_window(ps, et);
    e matches Event::Absorb {
        source,
        target,
        spell_info,
        advanced,
        caster,
        absorbed_spell,
        amount,
        total_amount,
        critical,
    } && {
        &&& spec_source_rel(ps, source)
        &&& spec_target_rel(ps, target)
        &&& spec_advanced_rel(ps, et, advanced)
        &&& if spec_prefix_ok(ps, et) {
            spec_prefix_rel(ps, et, spell_info)
        } else {
            spell_info is None
        }
        &&& (caster is Some <==> spec_unit_ok(w.subrange(0, 4)))
        &&& (caster matches Some(u) ==> spec_unit_matches(w.subrange(0, 4), u))
        &&& (absorbed_spell is Some <==> spec_spell_info_ok(w.subrange(4, 7)))
        &&& (absorbed_spell matches Some(s) ==> spec_spell_info_matches(w.subrange(4, 7), s))
        &&& amount as int == spec_isize_at(w, 7)
        &&& total_amount as int == spec_isize_at(w, 8)
        &&& critical == spec_bool_at(w, 9)
    }
}

pub open spec fn spec_is_heal_absorb(et: EventType) -> bool {
    match et {
        EventType::SpellHealAbsorbed | EventType::SpellPeriodicHealAbsorbed => true,
        _ => false,
    }
}

pub open spec fn spec_heal_absorb_ok(ps: Seq<String>, et: EventType) -> bool {
    let w = spec_suffix_views(ps, et);
    &&& spec_frame_ok(ps, et)
    &&& spec_prefix_ok(ps, et)
    &&& w.len() >= 7
    &&& spec_isize_ok(w, 7)
    &&& spec_isize_ok(w, 8)
}

pub open spec fn spec_heal_absorb_matches(ps: Seq<String>, et: EventType, e: Event) -> bool {
    let w = spec_suffix_views(ps, et);
    e matches Event::HealAbsorb {
        source,
        target,
        spell_info,
        advanced,
        extra_unit,
        extra_spell_info,
        absorbed_amount,
        total_amount,
    } && {
        &&& spec_source_rel(ps, source)
        &&& spec_target_rel(ps, target)
        &&& spec_advanced_rel(ps, et, advanced)
        &&& spec_prefix_rel(ps, et, spell_info)
        &&& (extra_unit is Some <==> spec_unit_ok(w.subrange(0, 4)))
        &&& (extra_unit matches Some(u) ==> spec_unit_matches(w.subrange(0, 4), u))
        &&& (extra_spell_info is Some <==> spec_spell_info_ok(w.subrange(4, 7)))
        &&& (extra_spell_info matches Some(s) ==> spec_spell_info_matches(w.subrange(4, 7), s))
        &&& absorbed_amount as int == spec_isize_at(w, 7)
        &&& total_amount as int == spec_isize_at(w, 8)
    }
}

pub open spec fn spec_is_extra_attacks(et: EventType) -> bool {
    match et {
        EventType::SpellExtraAttacks | EventType::SpellPeriodicExtraAttacks => true,
        _ => false,
    }
}

pub open spec fn spec_extra_attacks_ok(ps: Seq<String>, et: EventType) -> bool {
    let w = spec_suffix_views(ps, et);
    &&& spec_frame_ok(ps, et)
    &&& spec_prefix_ok(ps, et)
    &&& spec_isize_ok(w, 0)
}

pub open spec fn spec_extra_attacks_matches(ps: Seq<String>, et: EventType, e: Event) -> bool {
    let w = spec_suffix_views(ps, et);
    e matches Event::ExtraAttacks { source, target, spell_info, advanced, amount } && {
        &&& spec_source_rel(ps, source)
        &&& spec_target_rel(ps, target)
        &&& spec_advanced_rel(ps, et, advanced)
        &&& spec_prefix_rel(ps, et, spell_info)
        &&& amount as int == spec_isize_at(w, 0)
    }
}

pub open spec fn spec_is_energize(et: EventType) -> bool {
    match et {
        EventType::SpellEnergize | EventType::SpellPeriodicEnergize => true,
        _ => false,
    }
}

pub open spec fn spec_energize_ok(ps: Seq<String>, et: EventType) -> bool {
    let w = spec_suffix_views(ps, et);
    &&& spec_frame_ok(ps, et)
    &&& spec_prefix_ok(ps, et)
    &&& 0 < w.len() && spec_fractional(w[0])
    &&& 1 < w.len() && spec_fractional(w[1])
    &&& spec_nat_ok(w, 2, u8::MAX as nat)
    &&& spec_nat_ok(w, 3, usize::MAX as nat)
}

pub open spec fn spec_energize_matches(ps: Seq<String>, et: EventType, e: Event) -> bool {
    let w = spec_suffix_views(ps, et);
    e matches Event::Energize {
        source,
        target,
        spell_info,
        advanced,
        amount,
        over_energize,
        power_type,
        max_power,
    } && {
        &&& spec_source_rel(ps, source)
        &&& spec_target_rel(ps, target)
        &&& spec_advanced_rel(ps, et, advanced)
        &&& spec_prefix_rel(ps, et, spell_info)
        &&& amount@ == w[0]
        &&& over_energize@ == w[1]
        &&& power_type == PowerType::spec_from_u8(spec_nat_at(w, 2, u8::MAX as nat) as u8)
        &&& max_power as nat == spec_nat_at(w, 3, usize::MAX as nat)
    }
}

pub open spec fn spec_is_drain(et: EventType) -> bool {
    match et {
        EventType::SpellDrain | EventType::SpellPeriodicDrain => true,
        _ => false,
    }
}

pub open spec fn spec_drain_ok(ps: Seq<String>, et: EventType) -> bool {
    let w = spec_suffix_views(ps, et);
    &&& spec_frame_ok(ps, et)
    &&& spec_prefix_ok(ps, et)
    &&& spec_isize_ok(w, 0)
    &&& spec_nat_ok(w, 1, u8::MAX as nat)
    &&& spec_isize_ok(w, 2)
    &&& spec_nat_ok(w, 3, usize::MAX as nat)
}

pub open spec fn spec_drain_matches(ps: Seq<String>, et: EventType, e: Event) -> bool {
    let w = spec_suffix_views(ps, et);
    e matches Event::Drain {
        source,
        target,
        spell_info,
        advanced,
        amount,
        power_type,
        extra_amount,
        max_power,
    } && {
        &&& spec_source_rel(ps, source)
        &&& spec_target_rel(ps, target)
        &&& spec_advanced_rel(ps, et, advanced)
        &&& spec_prefix_rel(ps, et, spell_info)
        &&& amount as int == spec_isize_at(w, 0)
        &&& power_type == PowerType::spec_from_u8(spec_nat_at(w, 1, u8::MAX as nat) as u8)
        &&& extra_amount as int == spec_isize_at(w, 2)
        &&& max_power as nat == spec_nat_at(w, 3, usize::MAX as nat)
    }
}

pub open spec fn spec_is_leech(et: EventType) -> bool {
    match et {
        EventType::SpellLeech | EventType::SpellPeriodicLeech => true,
        _ => false,
    }
}

pub open spec fn spec_leech_ok(ps: Seq<String>, et: EventType) -> bool {
    let w = spec_suffix_views(ps, et);
    &&& spec_frame_ok(ps, et)
    &&& spec_prefix_ok(ps, et)
    &&& spec_isize_ok(w, 0)
    &&& spec_nat_ok(w, 1, u8::MAX as nat)
    &&& spec_isize_ok(w, 2)
}

pub open spec fn spec_leech_matches(ps: Seq<String>, et: EventType, e: Event) -> bool {
    let w = spec_suffix_views(ps, et);
    e matches Event::Leech {
        source,
        target,
        spell_info,
        advanced,
        amount,
        power_type,
        extra_amount,
    } && {
        &&& spec_source_rel(ps, source)
        &&& spec_target_rel(ps, target)
        &&& spec_advanced_rel(ps, et, advanced)
        &&& spec_prefix_rel(ps, et, spell_info)
        &&& amount as int == spec_isize_at(w, 0)
        &&& power_type == PowerType::spec_from_u8(spec_nat_at(w, 1, u8::MAX as nat) as u8)
        &&& extra_amount as int == spec_isize_at(w, 2)
    }
}

pub open spec fn spec_is_dispel(et: EventType) -> bool {
    match et {
        EventType::SpellDispel | EventType::SpellDispelFailed => true,
        _ => false,
    }
}

pub open spec fn spec_dispel_ok(ps: Seq<String>, et: EventType) -> bool {
    let w = spec_suffix_views(ps, et);
    &&& spec_frame_ok(ps, et)
    &&& spec_prefix_ok(ps, et)
    &&& w.len() >= 3
    &&& (et is SpellDispel ==> 3 < w.len() && AuraType::spec_of_str(w[3]) is Some)
}

pub open spec fn spec_dispel_matches(ps: Seq<String>, et: EventType, e: Event) -> bool {
    let w = spec_suffix_views(ps, et);
    e matches Event::Dispel {
        source,
        target,
        spell_info,
        advanced,
        extra_spell,
        aura_type,
        failed,
    } && {
        &&& spec_source_rel(ps, source)
        &&& spec_target_rel(ps, target)
        &&& spec_advanced_rel(ps, et, advanced)
        &&& spec_prefix_rel(ps, et, spell_info)
        &&& (extra_spell is Some <==> spec_spell_info_ok(w.subrange(0, 3)))
        &&& (extra_spell matches Some(s) ==> spec_spell_info_matches(w.subrange(0, 3), s))
        &&& if et is SpellDispel {
            aura_type matches Some(a) && Some(a) == AuraType::spec_of_str(w[3]) && !failed
        } else {
            aura_type is None && failed
        }
    }
}

pub open spec fn spec_is_stolen(et: EventType) -> bool {
    match et {
        EventType::SpellStolen | EventType::SpellPeriodicStolen => true,
        _ => false,
    }
}

pub open spec fn spec_stolen_ok(ps: Seq<String>, et: EventType) -> bool {
    let w = spec_suffix_views(ps, et);
    &&& spec_frame_ok(ps, et)
    &&& spec_prefix_ok(ps, et)
    &&& w.len() >= 3
    &&& 3 < w.len()
    &&& AuraType::spec_of_str(w[3]) is Some
}

pub open spec fn spec_stolen_matches(ps: Seq<String>, et: EventType, e: Event) -> bool {
    let w = spec_suffix_views(ps, et);
    e matches Event::Stolen { source, target, spell_info, advanced, extra_spell, aura_type } && {
        &&& spec_source_rel(ps, source)
        &&& spec_target_rel(ps, target)
        &&& spec_advanced_rel(ps, et, advanced)
        &&& spec_prefix_rel(ps, et, spell_info)
        &&& (extra_spell is Some <==> spec_spell_info_ok(w.subrange(0, 3)))
        &&& (extra_spell matches Some(s) ==> spec_spell_info_matches(w.subrange(0, 3), s))
        &&& Some(aura_type) == AuraType::spec_of_str(w[3])
    }
}

pub open spec fn spec_is_aura(et: EventType) -> bool {
    match et {
        EventType::SpellAuraApplied
        | EventType::SpellAuraAppliedDose
        | EventType::SpellAuraRemoved
        | EventType::SpellAuraRemovedDose
        | EventType::SpellAuraRefresh
        | EventType::SpellAuraBroken
        | EventType::SpellAuraBrokenSpell
        | EventType::SpellPeriodicAuraApplied
        | EventType::SpellPeriodicAuraAppliedDose
        | EventType::SpellPeriodicAuraRemoved
        | EventType::SpellPeriodicAuraRemovedDose
        | EventType::SpellPeriodicAuraRefresh
        | EventType::SpellPeriodicAuraBroken
        | EventType::SpellPeriodicAuraBrokenSpell => true,
        _ => false,
    }
}

/// The aura tags whose suffix begins with the breaking spell.
pub open spec fn spec_is_aura_broken_spell(et: EventType) -> bool {
    match et {
        EventType::SpellAuraBrokenSpell | EventType::SpellPeriodicAuraBrokenSpell => true,
        _ => false,
    }
}

pub open spec fn spec_aura_ok(ps: Seq<String>, et: EventType) -> bool {
    let w = spec_suffix_views(ps, et);
    &&& spec_frame_ok(ps, et)
    &&& spec_prefix_ok(ps, et)
    &&& if spec_is_aura_broken_spell(et) {
        &&& w.len() >= 3
        &&& 3 < w.len()
        &&& AuraType::spec_of_str(w[3]) is Some
    } else {
        &&& 0 < w.len()
        &&& AuraType::spec_of_str(w[0]) is Some
    }
}

pub open spec fn spec_aura_matches(ps: Seq<String>, et: EventType, e: Event) -> bool {
    let w = spec_suffix_views(ps, et);
    e matches Event::Aura {
        source,
        target,
        spell_info,
        advanced,
        extra_spell,
        aura_type,
        amount,
    } && {
        &&& spec_source_rel(ps, source)
        &&& spec_target_rel(ps, target)
        &&& spec_advanced_rel(ps, et, advanced)
        &&& spec_prefix_rel(ps, et, spell_info)
        &&& if spec_is_aura_broken_spell(et) {
            &&& (extra_spell is Some <==> spec_spell_info_ok(w.subrange(0, 3)))
            &&& (extra_spell matches Some(s) ==> spec_spell_info_matches(w.subrange(0, 3), s))
            &&& Some(aura_type) == AuraType::spec_of_str(w[3])
            &&& amount == 0
        } else {
            &&& extra_spell is None
            &&& Some(aura_type) == AuraType::spec_of_str(w[0])
            &&& amount as int == if spec_isize_ok(w, 1) {
                spec_isize_at(w, 1)
            } else {
                0
            }
        }
    }
}

pub open spec fn spec_is_cast(et: EventType) -> bool {
    match et {
        EventType::SpellCastStart
        | EventType::SpellCastSuccess
        | EventType::SpellCastFailed
        | EventType::SpellPeriodicCastStart
        | EventType::SpellPeriodicCastSuccess
        | EventType::SpellPeriodicCastFailed
        | EventType::SpellBuildingCastStart
        | EventType::SpellBuildingCastSuccess
        | EventType::SpellBuildingCastFailed => true,
        _ => false,
    }
}

pub open spec fn spec_cast_ok(ps: Seq<String>, et: EventType) -> bool {
    &&& spec_frame_ok(ps, et)
    &&& spec_prefix_ok(ps, et)
    &&& spec_unit_ok(views_of(ps).subrange(0, 4))
}

pub open spec fn spec_cast_matches(ps: Seq<String>, et: EventType, e: Event) -> bool {
    let w = spec_suffix_views(ps, et);
    e matches Event::SpellCast { source, target, spell_info, advanced, failure_reason } && {
        &&& spec_unit_matches(views_of(ps).subrange(0, 4), source)
        &&& spec_target_rel(ps, target)
        &&& spec_advanced_rel(ps, et, advanced)
        &&& spec_prefix_rel(ps, et, Some(spell_info))
        &&& if 0 < w.len() {
            failure_reason matches Some(t) && t@ == spec_string_at(w, 0)
        } else {
            failure_reason is None
        }
    }
}

/// What assembling a combat-category line returns: per family, success
/// exactly when the family's fields decode, and a result whose parts are
/// exactly the decoded windows; recognized tags outside every family keep
/// the explicit placeholder.
pub open spec fn spec_combat_post(ps: Seq<String>, et: EventType, r: Result<
    Event,
    JastorError,
>) -> bool {
    if spec_is_damage(et) {
        &&& (r is Ok <==> spec_damage_ok(ps, et))
        &&& (r matches Ok(e) ==> spec_damage_matches(ps, et, e))
    } else if spec_is_miss(et) {
        &&& (r is Ok <==> spec_miss_ok(ps, et))
        &&& (r matches Ok(e) ==> spec_miss_matches(ps, et, e))
    } else if spec_is_heal(et) {
        &&& (r is Ok <==> spec_heal_ok(ps, et))
        &&& (r matches Ok(e) ==> spec_heal_matches(ps, et, e))
    } else if spec_is_absorb(et) {
        &&& (r is Ok <==> spec_absorb_ok(ps, et))
        &&& (r matches Ok(e) ==> spec_absorb_matches(ps, et, e))
    } else if spec_is_heal_absorb(et) {
        &&& (r is Ok <==> spec_heal_absorb_ok(ps, et))
        &&& (r matches Ok(e) ==> spec_heal_absorb_matches(ps, et, e))
    } else if spec_is_extra_attacks(et) {
        &&& (r is Ok <==> spec_extra_attacks_ok(ps, et))
        &&& (r matches Ok(e) ==> spec_extra_attacks_matches(ps, et, e))
    } else if spec_is_energize(et) {
        &&& (r is Ok <==> spec_energize_ok(ps, et))
        &&& (r matches Ok(e) ==> spec_energize_matches(ps, et, e))
    } else if spec_is_drain(et) {
        &&& (r is Ok <==> spec_drain_ok(ps, et))
        &&& (r matches Ok(e) ==> spec_drain_matches(ps, et, e))
    } else if spec_is_leech(et) {
        &&& (r is Ok <==> spec_leech_ok(ps, et))
        &&& (r matches Ok(e) ==> spec_leech_matches(ps, et, e))
    } else if spec_is_dispel(et) {
        &&& (r is Ok <==> spec_dispel_ok(ps, et))
        &&& (r matches Ok(e) ==> spec_dispel_matches(ps, et, e))
    } else if spec_is_stolen(et) {
        &&& (r is Ok <==> spec_stolen_ok(ps, et))
        &&& (r matches Ok(e) ==> spec_stolen_matches(ps, et, e))
    } else if spec_is_aura(et) {
        &&& (r is Ok <==> spec_aura_ok(ps, et))
        &&& (r matches Ok(e) ==> spec_aura_matches(ps, et, e))
    } else if spec_is_cast(et) {
        &&& (r is Ok <==> spec_cast_ok(ps, et))
        &&& (r matches Ok(e) ==> spec_cast_matches(ps, et, e))
    } else {
        &&& (r is Ok <==> spec_frame_ok(ps, et))
        &&& (r matches Ok(e) ==> e is Placeholder)
    }
}

} // verus!

verus! {

impl EventParser {
    fn damage_event(&self, source: Option<Unit>, target: Option<Unit>, advanced: Option<
        AdvancedParameters,
    >) -> (r: Result<Event, JastorError>)
        requires
            spec_is_damage(self.event_type),
            spec_frame_ok(self.handler.params@, self.event_type),
            spec_source_rel(self.handler.params@, source),
            spec_target_rel(self.handler.params@, target),
            spec_advanced_rel(self.handler.params@, self.event_type, advanced),
        ensures
            r is Ok <==> spec_damage_ok(self.handler.params@, self.event_type),
            r matches Ok(e) ==> spec_damage_matches(self.handler.params@, self.event_type, e),
    {
        let spell_info = self.spell_prefix()?;
        let suffix = self.suffix()?;
        let handler = SliceHander::new(suffix);
        let amount = handler.as_isize(0)?;
        let base_amount = handler.as_isize(1)?;
        let overkill = handler.as_isize(2)?;
        let school = SpellSchool::from_u8(handler.as_u8(3)?);
        let resisted = handler.as_isize(4)?;
        let blocked = handler.as_isize(5)?;
        let absorbed = handler.as_isize(6)?;
        let critical = handler.as_boolean(7)?;
        let glancing = handler.as_boolean(8)?;
        let is_offhand = handler.as_boolean(9)?;
        let damage_type = match self.event_type {
            EventType::SpellDamage | EventType::SpellPeriodicDamage | EventType::RangeDamage => {
                Some(handler.raw(10)?.clone())
            },
            _ => None,
        };
        let support_guid = match self.event_type {
            EventType::SpellDamageSupport | EventType::SpellPeriodicDamageSupport => {
                Some(handler.as_string(10)?)
            },
            _ => None,
        };
        Ok(
            Event::Damage {
                source,
                target,
                advanced,
                spell_info,
                amount,
                base_amount,
                overkill,
                school,
                resisted,
                blocked,
                absorbed,
                critical,
                glancing,
                is_offhand,
                damage_type,
                support_guid,
            },
        )
    }

    fn miss_event(&self, source: Option<Unit>, target: Option<Unit>, advanced: Option<
        AdvancedParameters,
    >) -> (r: Result<Event, JastorError>)
        requires
            spec_is_miss(self.event_type),
            spec_frame_ok(self.handler.params@, self.event_type),
            spec_source_rel(self.handler.params@, source),
            spec_target_rel(self.handler.params@, target),
            spec_advanced_rel(self.handler.params@, self.event_type, advanced),
        ensures
            r is Ok <==> spec_miss_ok(self.handler.params@, self.event_type),
            r matches Ok(e) ==> spec_miss_matches(self.handler.params@, self.event_type, e),
    {
        let spell_info = self.spell_prefix()?;
        let suffix = self.suffix()?;
        let handler = SliceHander::new(suffix);
        let miss_type = MissType::from_str(handler.raw(0)?.as_str())?;
        let is_offhand = handler.as_boolean(1)?;
        let (amount, total_amount, critical) = match miss_type {
            MissType::Absorb => {
                let amount = handler.as_isize(2)?;
                let total_amount = handler.as_isize(3)?;
                let critical = handler.as_boolean(4)?;
                (amount, total_amount, critical)
            },
            _ => (0isize, 0isize, false),
        };
        Ok(
            Event::Miss {
                source,
                target,
                spell_info,
                advanced,
                miss_type,
                is_offhand,
                amount,
                total_amount,
                critical,
            },
        )
    }

    fn heal_event(&self, source: Option<Unit>, target: Option<Unit>, advanced: Option<
        AdvancedParameters,
    >) -> (r: Result<Event, JastorError>)
        requires
            spec_is_heal(self.event_type),
            spec_frame_ok(self.handler.params@, self.event_type),
            spec_source_rel(self.handler.params@, source),
            spec_target_rel(self.handler.params@, target),
            spec_advanced_rel(self.handler.params@, self.event_type, advanced),
        ensures
            r is Ok <==> spec_heal_ok(self.handler.params@, self.event_type),
            r matches Ok(e) ==> spec_heal_matches(self.handler.params@, self.event_type, e),
    {
        let spell_info = self.spell_prefix()?;
        let suffix = self.suffix()?;
        let handler = SliceHander::new(suffix);
        let amount = handler.as_isize(0)?;
        let base_amount = handler.as_isize(1)?;
        let overhealing = handler.as_isize(2)?;
        let absorbed = handler.as_isize(3)?;
        let critical = handler.as_boolean(4)?;
        let support_guid = match self.event_type {
            EventType::SpellHealSupport | EventType::SpellPeriodicHealSupport => {
                Some(handler.as_string(5)?)
            },
            _ => None,
        };
        Ok(
            Event::Heal {
                source,
                target,
                spell_info,
                advanced,
                amount,
                base_amount,
                overhealing,
                absorbed,
                critical,
                support_guid,
            },
        )
    }

    fn absorb_event(&self, source: Option<Unit>, target: Option<Unit>, advanced: Option<
        AdvancedParameters,
    >) -> (r: Result<Event, JastorError>)
        requires
            spec_is_absorb(self.event_type),
            spec_frame_ok(self.handler.params@, self.event_type),
            spec_source_rel(self.handler.params@, source),
            spec_target_rel(self.handler.params@, target),
            spec_advanced_rel(self.handler.params@, self.event_type, advanced),
        ensures
            r is Ok <==> spec_absorb_ok(self.handler.params@, self.event_type),
            r matches Ok(e) ==> spec_absorb_matches(self.handler.params@, self.event_type, e),
    {
        let spell_info = match self.spell_prefix() {
            Ok(s) => s,
            Err(_) => None,
        };
        let suffix = match spell_info {
            Some(_) => self.suffix()?,
            None => self.handler.fields_from_base()?,
        };
        proof {
            crate::util::param_handler::lemma_views_of_subrange(
                self.handler.params@,
                8,
                self.handler.params@.len() as int,
            );
            assert(views_of(suffix@) == spec_absorb_window(self.handler.params@, self.event_type));
        }
        let handler = SliceHander::new(suffix);
        let caster = if suffix.len() >= 4 {
            let w4 = vstd::slice::slice_subrange(suffix, 0, 4);
            proof {
                crate::util::param_handler::lemma_views_of_subrange(suffix@, 0, 4);
            }
            match Unit::parse(w4) {
                Ok(u) => Some(u),
                Err(_) => None,
            }
        } else {
            None
        };
        let absorbed_spell = if suffix.len() >= 7 {
            let w3 = vstd::slice::slice_subrange(suffix, 4, 7);
            proof {
                crate::util::param_handler::lemma_views_of_subrange(suffix@, 4, 7);
            }
            match SpellInfo::parse(w3) {
                Ok(s) => Some(s),
                Err(_) => None,
            }
        } else {
            None
        };
        let amount = handler.as_isize(7)?;
        let total_amount = handler.as_isize(8)?;
        let critical = handler.as_boolean(9)?;
        Ok(
            Event::Absorb {
                source,
                target,
                spell_info,
                advanced,
                caster,
                absorbed_spell,
                amount,
                total_amount,
                critical,
            },
        )
    }

    fn heal_absorb_event(&self, source: Option<Unit>, target: Option<Unit>, advanced: Option<
        AdvancedParameters,
    >) -> (r: Result<Event, JastorError>)
        requires
            spec_is_heal_absorb(self.event_type),
            spec_frame_ok(self.handler.params@, self.event_type),
            spec_source_rel(self.handler.params@, source),
            spec_target_rel(self.handler.params@, target),
            spec_advanced_rel(self.handler.params@, self.event_type, advanced),
        ensures
            r is Ok <==> spec_heal_absorb_ok(self.handler.params@, self.event_type),
            r matches Ok(e) ==> spec_heal_absorb_matches(self.handler.params@, self.event_type, e),
    {
        let spell_info = self.spell_prefix()?;
        let suffix = self.suffix()?;
        if suffix.len() < 7 {
            return Err(
                JastorError::GenericError(String::from_str("invalid index for param check")),
            );
        }
        let handler = SliceHander::new(suffix);
        let u4 = vstd::slice::slice_subrange(suffix, 0, 4);
        let s3 = vstd::slice::slice_subrange(suffix, 4, 7);
        proof {
            crate::util::param_handler::lemma_views_of_subrange(suffix@, 0, 4);
            crate::util::param_handler::lemma_views_of_subrange(suffix@, 4, 7);
        }
        let extra_unit = match Unit::parse(u4) {
            Ok(u) => Some(u),
            Err(_) => None,
        };
        let extra_spell_info = match SpellInfo::parse(s3) {
            Ok(s) => Some(s),
            Err(_) => None,
        };
        let absorbed_amount = handler.as_isize(7)?;
        let total_amount = handler.as_isize(8)?;
        Ok(
            Event::HealAbsorb {
                source,
                target,
                spell_info,
                advanced,
                extra_unit,
                extra_spell_info,
                absorbed_amount,
                total_amount,
            },
        )
    }

    fn extra_attacks_event(&self, source: Option<Unit>, target: Option<Unit>, advanced: Option<
        AdvancedParameters,
    >) -> (r: Result<Event, JastorError>)
        requires
            spec_is_extra_attacks(self.event_type),
            spec_frame_ok(self.handler.params@, self.event_type),
            spec_source_rel(self.handler.params@, source),
            spec_target_rel(self.handler.params@, target),
            spec_advanced_rel(self.handler.params@, self.event_type, advanced),
        ensures
            r is Ok <==> spec_extra_attacks_ok(self.handler.params@, self.event_type),
            r matches Ok(e) ==> spec_extra_attacks_matches(
                self.handler.params@,
                self.event_type,
                e,
            ),
    {
        let spell_info = self.spell_prefix()?;
        let suffix = self.suffix()?;
        let handler = SliceHander::new(suffix);
        let amount = handler.as_isize(0)?;
        Ok(Event::ExtraAttacks { source, target, spell_info, advanced, amount })
    }

    fn energize_event(&self, source: Option<Unit>, target: Option<Unit>, advanced: Option<
        AdvancedParameters,
    >) -> (r: Result<Event, JastorError>)
        requires
            spec_is_energize(self.event_type),
            spec_frame_ok(self.handler.params@, self.event_type),
            spec_source_rel(self.handler.params@, source),
            spec_target_rel(self.handler.params@, target),
            spec_advanced_rel(self.handler.params@, self.event_type, advanced),
        ensures
            r is Ok <==> spec_energize_ok(self.handler.params@, self.event_type),
            r matches Ok(e) ==> spec_energize_matches(self.handler.params@, self.event_type, e),
    {
        let spell_info = self.spell_prefix()?;
        let suffix = self.suffix()?;
        let handler = SliceHander::new(suffix);
        let amount = handler.as_fractional(0)?;
        let over_energize = handler.as_fractional(1)?;
        let power_type = PowerType::from_u8(handler.as_u8(2)?);
        let max_power = handler.as_usize(3)?;
        Ok(
            Event::Energize {
                source,
                target,
                spell_info,
                advanced,
                amount,
                over_energize,
                power_type,
                max_power,
            },
        )
    }

    fn drain_event(&self, source: Option<Unit>, target: Option<Unit>, advanced: Option<
        AdvancedParameters,
    >) -> (r: Result<Event, JastorError>)
        requires
            spec_is_drain(self.event_type),
            spec_frame_ok(self.handler.params@, self.event_type),
            spec_source_rel(self.handler.params@, source),
            spec_target_rel(self.handler.params@, target),
            spec_advanced_rel(self.handler.params@, self.event_type, advanced),
        ensures
            r is Ok <==> spec_drain_ok(self.handler.params@, self.event_type),
            r matches Ok(e) ==> spec_drain_matches(self.handler.params@, self.event_type, e),
    {
        let spell_info = self.spell_prefix()?;
        let suffix = self.suffix()?;
        let handler = SliceHander::new(suffix);
        let amount = handler.as_isize(0)?;
        let power_type = PowerType::from_u8(handler.as_u8(1)?);
        let extra_amount = handler.as_isize(2)?;
        let max_power = handler.as_usize(3)?;
        Ok(
            Event::Drain {
                source,
                target,
                spell_info,
                advanced,
                amount,
                power_type,
                extra_amount,
                max_power,
            },
        )
    }

    fn leech_event(&self, source: Option<Unit>, target: Option<Unit>, advanced: Option<
        AdvancedParameters,
    >) -> (r: Result<Event, JastorError>)
        requires
            spec_is_leech(self.event_type),
            spec_frame_ok(self.handler.params@, self.event_type),
            spec_source_rel(self.handler.params@, source),
            spec_target_rel(self.handler.params@, target),
            spec_advanced_rel(self.handler.params@, self.event_type, advanced),
        ensures
            r is Ok <==> spec_leech_ok(self.handler.params@, self.event_type),
            r matches Ok(e) ==> spec_leech_matches(self.handler.params@, self.event_type, e),
    {
        let spell_info = self.spell_prefix()?;
        let suffix = self.suffix()?;
        let handler = SliceHander::new(suffix);
        let amount = handler.as_isize(0)?;
        let power_type = PowerType::from_u8(handler.as_u8(1)?);
        let extra_amount = handler.as_isize(2)?;
        Ok(Event::Leech { source, target, spell_info, advanced, amount, power_type, extra_amount })
    }

    fn dispel_event(&self, source: Option<Unit>, target: Option<Unit>, advanced: Option<
        AdvancedParameters,
    >) -> (r: Result<Event, JastorError>)
        requires
            spec_is_dispel(self.event_type),
            spec_frame_ok(self.handler.params@, self.event_type),
            spec_source_rel(self.handler.params@, source),
            spec_target_rel(self.handler.params@, target),
            spec_advanced_rel(self.handler.params@, self.event_type, advanced),
        ensures
            r is Ok <==> spec_dispel_ok(self.handler.params@, self.event_type),
            r matches Ok(e) ==> spec_dispel_matches(self.handler.params@, self.event_type, e),
    {
        let spell_info = self.spell_prefix()?;
        let suffix = self.suffix()?;
        if suffix.len() < 3 {
            return Err(
                JastorError::GenericError(String::from_str("invalid index for param check")),
            );
        }
        let s3 = vstd::slice::slice_subrange(suffix, 0, 3);
        proof {
            crate::util::param_handler::lemma_views_of_subrange(suffix@, 0, 3);
        }
        let extra_spell = match SpellInfo::parse(s3) {
            Ok(s) => Some(s),
            Err(_) => None,
        };
        let handler = SliceHander::new(suffix);
        let (aura_type, failed) = if matches!(self.event_type, EventType::SpellDispel) {
            (Some(AuraType::from_str(handler.raw(3)?.as_str())?), false)
        } else {
            (None::<AuraType>, true)
        };
        Ok(Event::Dispel { source, target, spell_info, advanced, extra_spell, aura_type, failed })
    }

    fn stolen_event(&self, source: Option<Unit>, target: Option<Unit>, advanced: Option<
        AdvancedParameters,
    >) -> (r: Result<Event, JastorError>)
        requires
            spec_is_stolen(self.event_type),
            spec_frame_ok(self.handler.params@, self.event_type),
            spec_source_rel(self.handler.params@, source),
            spec_target_rel(self.handler.params@, target),
            spec_advanced_rel(self.handler.params@, self.event_type, advanced),
        ensures
            r is Ok <==> spec_stolen_ok(self.handler.params@, self.event_type),
            r matches Ok(e) ==> spec_stolen_matches(self.handler.params@, self.event_type, e),
    {
        let spell_info = self.spell_prefix()?;
        let suffix = self.suffix()?;
        if suffix.len() < 3 {
            return Err(
                JastorError::GenericError(String::from_str("invalid index for param check")),
            );
        }
        let s3 = vstd::slice::slice_subrange(suffix, 0, 3);
        proof {
            crate::util::param_handler::lemma_views_of_subrange(suffix@, 0, 3);
        }
        let extra_spell = match SpellInfo::parse(s3) {
            Ok(s) => Some(s),
            Err(_) => None,
        };
        let handler = SliceHander::new(suffix);
        let aura_type = AuraType::from_str(handler.raw(3)?.as_str())?;
        Ok(Event::Stolen { source, target, spell_info, advanced, extra_spell, aura_type })
    }

    fn aura_event(&self, source: Option<Unit>, target: Option<Unit>, advanced: Option<
        AdvancedParameters,
    >) -> (r: Result<Event, JastorError>)
        requires
            spec_is_aura(self.event_type),
            spec_frame_ok(self.handler.params@, self.event_type),
            spec_source_rel(self.handler.params@, source),
            spec_target_rel(self.handler.params@, target),
            spec_advanced_rel(self.handler.params@, self.event_type, advanced),
        ensures
            r is Ok <==> spec_aura_ok(self.handler.params@, self.event_type),
            r matches Ok(e) ==> spec_aura_matches(self.handler.params@, self.event_type, e),
    {
        let spell_info = self.spell_prefix()?;
        let suffix = self.suffix()?;
        let handler = SliceHander::new(suffix);
        match self.event_type {
            EventType::SpellAuraBrokenSpell | EventType::SpellPeriodicAuraBrokenSpell => {
                if suffix.len() < 3 {
                    return Err(
                        JastorError::GenericError(
                            String::from_str("invalid index for param check"),
                        ),
                    );
                }
                let s3 = vstd::slice::slice_subrange(suffix, 0, 3);
                proof {
                    crate::util::param_handler::lemma_views_of_subrange(suffix@, 0, 3);
                }
                let extra_spell = match SpellInfo::parse(s3) {
                    Ok(s) => Some(s),
                    Err(_) => None,
                };
                let aura_type = AuraType::from_str(handler.raw(3)?.as_str())?;
                Ok(
                    Event::Aura {
                        source,
                        target,
                        spell_info,
                        advanced,
                        extra_spell,
                        aura_type,
                        amount: 0,
                    },
                )
            },
            _ => {
                let aura_type = AuraType::from_str(handler.raw(0)?.as_str())?;
                let amount = match handler.as_isize(1) {
                    Ok(v) => v,
                    Err(_) => 0,
                };
                Ok(
                    Event::Aura {
                        source,
                        target,
                        spell_info,
                        advanced,
                        extra_spell: None,
                        aura_type,
                        amount,
                    },
                )
            },
        }
    }

    fn cast_event(&self, source: Option<Unit>, target: Option<Unit>, advanced: Option<
        AdvancedParameters,
    >) -> (r: Result<Event, JastorError>)
        requires
            spec_is_cast(self.event_type),
            spec_frame_ok(self.handler.params@, self.event_type),
            spec_source_rel(self.handler.params@, source),
            spec_target_rel(self.handler.params@, target),
            spec_advanced_rel(self.handler.params@, self.event_type, advanced),
        ensures
            r is Ok <==> spec_cast_ok(self.handler.params@, self.event_type),
            r matches Ok(e) ==> spec_cast_matches(self.handler.params@, self.event_type, e),
    {
        let src = match source {
            Some(u) => u,
            None => {
                return Err(
                    JastorError::ParseError(String::from_str("cast event without a source unit")),
                );
            },
        };
        let spell_info = match self.spell_prefix()? {
            Some(s) => s,
            None => {
                return Err(
                    JastorError::ParseError(String::from_str("cast event without a spell prefix")),
                );
            },
        };
        let suffix = self.suffix()?;
        let handler = SliceHander::new(suffix);
        let failure_reason = if suffix.len() > 0 {
            Some(handler.as_string(0)?)
        } else {
            None
        };
        Ok(Event::SpellCast { source: src, target, spell_info, advanced, failure_reason })
    }

    /// Assembles a combat-category line: decodes the advanced window and the
    /// base units, then interprets the suffix window per tag family.
    fn combat_event(&self) -> (r: Result<Event, JastorError>)
        ensures
            spec_combat_post(self.handler.params@, self.event_type, r),
    {
        let advanced = self.advanced()?;
        let units = self.units()?;
        let (source, target) = units;
        match self.event_type {
            EventType::SpellDamage
            | EventType::SpellDamageSupport
            | EventType::SpellPeriodicDamageSupport
            | EventType::SpellPeriodicDamage
            | EventType::SpellBuildingDamage
            | EventType::RangeDamage
            | EventType::SwingDamage
            | EventType::DamageSplit
            | EventType::DamageShield
            | EventType::SwingDamageLanded => self.damage_event(source, target, advanced),
            EventType::SpellMissed
            | EventType::SpellPeriodicMissed
            | EventType::SpellBuildingMissed
            | EventType::DamageShieldMissed
            | EventType::RangeMissed
            | EventType::SwingMissed => self.miss_event(source, target, advanced),
            EventType::SpellHeal
            | EventType::SpellPeriodicHeal
            | EventType::SpellBuildingHeal
            | EventType::SpellHealSupport
            | EventType::SpellPeriodicHealSupport => self.heal_event(source, target, advanced),
            EventType::SpellAbsorbed | EventType::SpellPeriodicAbsorbed => self.absorb_event(
                source,
                target,
                advanced,
            ),
            EventType::SpellHealAbsorbed | EventType::SpellPeriodicHealAbsorbed => self
                .heal_absorb_event(source, target, advanced),
            EventType::SpellExtraAttacks | EventType::SpellPeriodicExtraAttacks => self
                .extra_attacks_event(source, target, advanced),
            EventType::SpellEnergize | EventType::SpellPeriodicEnergize => self.energize_event(
                source,
                target,
                advanced,
            ),
            EventType::SpellDrain | EventType::SpellPeriodicDrain => self.drain_event(
                source,
                target,
                advanced,
            ),
            EventType::SpellLeech | EventType::SpellPeriodicLeech => self.leech_event(
                source,
                target,
                advanced,
            ),
            EventType::SpellDispel | EventType::SpellDispelFailed => self.dispel_event(
                source,
                target,
                advanced,
            ),
            EventType::SpellStolen | EventType::SpellPeriodicStolen => self.stolen_event(
                source,
                target,
                advanced,
            ),
            EventType::SpellAuraApplied
            | EventType::SpellAuraAppliedDose
            | EventType::SpellAuraRemoved
            | EventType::SpellAuraRemovedDose
            | EventType::SpellAuraRefresh
            | EventType::SpellAuraBroken
            | EventType::SpellAuraBrokenSpell
            | EventType::SpellPeriodicAuraApplied
            | EventType::SpellPeriodicAuraAppliedDose
            | EventType::SpellPeriodicAuraRemoved
            | EventType::SpellPeriodicAuraRemovedDose
            | EventType::SpellPeriodicAuraRefresh
            | EventType::SpellPeriodicAuraBroken
            | EventType::SpellPeriodicAuraBrokenSpell => self.aura_event(source, target, advanced),
            EventType::SpellCastStart
            | EventType::SpellCastSuccess
            | EventType::SpellCastFailed
            | EventType::SpellPeriodicCastStart
            | EventType::SpellPeriodicCastSuccess
            | EventType::SpellPeriodicCastFailed
            | EventType::SpellBuildingCastStart
            | EventType::SpellBuildingCastSuccess
            | EventType::SpellBuildingCastFailed => self.cast_event(source, target, advanced),
            _ => Ok(Event::Placeholder),
        }
    }
}

} // verus!

verus! {

// ---------------------------------------------------------------------------
// Short-form events: fields indexed directly from the start of the list
// ---------------------------------------------------------------------------

/// What assembling a short-form line returns: per tag, success exactly when
/// the directly indexed fields decode, and a result carrying exactly those
/// fields.  Fractional wire fields are carried as raw text.
pub open spec fn spec_special_post(ps: Seq<String>, et: EventType, r: Result<
    Event,
    JastorError,
>) -> bool {
    let v = views_of(ps);
    match et {
        EventType::CombatLogVersion => {
            &&& (r is Ok <==> spec_nat_ok(v, 0, u8::MAX as nat) && 4 < v.len())
            &&& (r matches Ok(e) ==> e matches Event::CombatLogVersion { version, build }
                && version as nat == spec_nat_at(v, 0, u8::MAX as nat) && build@ == spec_string_at(
                v,
                4,
            ))
        },
        EventType::ZoneChange => {
            &&& (r is Ok <==> spec_nat_ok(v, 0, usize::MAX as nat) && 1 < v.len() && spec_nat_ok(
                v,
                2,
                u16::MAX as nat,
            ))
            &&& (r matches Ok(e) ==> e matches Event::ZoneChange { id, name, difficulty }
                && id as nat == spec_nat_at(v, 0, usize::MAX as nat) && name@ == spec_string_at(
                v,
                1,
            ) && difficulty == Difficulty::spec_from_u16(spec_nat_at(v, 2, u16::MAX as nat) as u16))
        },
        EventType::MapChange => {
            &&& (r is Ok <==> spec_nat_ok(v, 0, usize::MAX as nat) && 1 < v.len() && 2 < v.len()
                && spec_fractional(v[2]))
            &&& (r matches Ok(e) ==> e matches Event::MapChange { id, name, x0, x1, y0, y1 }
                && id as nat == spec_nat_at(v, 0, usize::MAX as nat) && name@ == spec_string_at(
                v,
                1,
            ) && x0@ == v[2] && x1@ == v[2] && y0@ == v[2] && y1@ == v[2])
        },
        EventType::StaggerClear => {
            &&& (r is Ok <==> 0 < v.len() && 1 < v.len() && spec_fractional(v[1]))
            &&& (r matches Ok(e) ==> e matches Event::StaggerClear { guid, value } && guid@
                == spec_string_at(v, 0) && value@ == v[1])
        },
        EventType::EncounterStart => {
            &&& (r is Ok <==> spec_nat_ok(v, 0, usize::MAX as nat) && 1 < v.len() && spec_nat_ok(
                v,
                2,
                u16::MAX as nat,
            ) && spec_nat_ok(v, 3, usize::MAX as nat) && spec_nat_ok(v, 4, usize::MAX as nat))
            &&& (r matches Ok(e) ==> e matches Event::EncounterStart {
                id,
                name,
                difficulty,
                size,
                instance,
            } && id as nat == spec_nat_at(v, 0, usize::MAX as nat) && name@ == spec_string_at(v, 1)
                && difficulty == Difficulty::spec_from_u16(spec_nat_at(v, 2, u16::MAX as nat) as u16)
                && size as nat == spec_nat_at(v, 3, usize::MAX as nat) && instance as nat
                == spec_nat_at(v, 4, usize::MAX as nat))
        },
        EventType::EncounterEnd => {
            &&& (r is Ok <==> spec_nat_ok(v, 0, usize::MAX as nat) && 1 < v.len() && spec_nat_ok(
                v,
                2,
                u16::MAX as nat,
            ) && spec_nat_ok(v, 3, usize::MAX as nat) && spec_bool_ok(v, 4) && spec_nat_ok(
                v,
                5,
                u64::MAX as nat,
            ))
            &&& (r matches Ok(e) ==> e matches Event::EncounterEnd {
                id,
                name,
                difficulty,
                size,
                success,
                length,
            } && id as nat == spec_nat_at(v, 0, usize::MAX as nat) && name@ == spec_string_at(v, 1)
                && difficulty == Difficulty::spec_from_u16(spec_nat_at(v, 2, u16::MAX as nat) as u16)
                && size as nat == spec_nat_at(v, 3, usize::MAX as nat) && success == spec_bool_at(
                v,
                4,
            ) && length as nat == spec_nat_at(v, 5, u64::MAX as nat))
        },
        EventType::ArenaMatchStart => {
            &&& (r is Ok <==> spec_nat_ok(v, 0, usize::MAX as nat) && spec_nat_ok(
                v,
                1,
                usize::MAX as nat,
            ) && 2 < v.len() && spec_nat_ok(v, 3, usize::MAX as nat))
            &&& (r matches Ok(e) ==> e matches Event::ArenaMatchStart { id, unk, match_type, team }
                && id as nat == spec_nat_at(v, 0, usize::MAX as nat) && unk as nat == spec_nat_at(
                v,
                1,
                usize::MAX as nat,
            ) && match_type@ == spec_string_at(v, 2) && team as nat == spec_nat_at(
                v,
                3,
                usize::MAX as nat,
            ))
        },
        EventType::ArenaMatchEnd => {
            &&& (r is Ok <==> spec_nat_ok(v, 0, usize::MAX as nat) && spec_nat_ok(
                v,
                1,
                u64::MAX as nat,
            ) && spec_nat_ok(v, 2, usize::MAX as nat) && spec_nat_ok(v, 3, usize::MAX as nat))
            &&& (r matches Ok(e) ==> e matches Event::ArenaMatchEnd {
                winner,
                duration,
                team_one_rating,
                team_two_rating,
            } && winner as nat == spec_nat_at(v, 0, usize::MAX as nat) && duration as nat
                == spec_nat_at(v, 1, u64::MAX as nat) && team_one_rating as nat == spec_nat_at(
                v,
                2,
                usize::MAX as nat,
            ) && team_two_rating as nat == spec_nat_at(v, 3, usize::MAX as nat))
        },
        EventType::ChallengeModeStart => {
            &&& (r is Ok <==> 0 < v.len() && spec_nat_ok(v, 1, usize::MAX as nat) && spec_nat_ok(
                v,
                2,
                usize::MAX as nat,
            ) && spec_nat_ok(v, 3, usize::MAX as nat) && 4 < v.len() && json_u16_list(
                spec_string_at(v, 4),
            ) is Some)
            &&& (r matches Ok(e) ==> e matches Event::ChallengeModeStart {
                name,
                id,
                challenge_id,
                keystone_level,
                affixes,
            } && name@ == spec_string_at(v, 0) && id as nat == spec_nat_at(v, 1, usize::MAX as nat)
                && challenge_id as nat == spec_nat_at(v, 2, usize::MAX as nat)
                && keystone_level as nat == spec_nat_at(v, 3, usize::MAX as nat) && ({
                let l = json_u16_list(spec_string_at(v, 4))->Some_0;
                affixes@.len() == l.len() && forall|i: int|
                    0 <= i < l.len() ==> #[trigger] affixes@[i] == Affix::spec_from_u16(l[i])
            }))
        },
        EventType::ChallengeModeEnd => {
            &&& (r is Ok <==> spec_nat_ok(v, 0, usize::MAX as nat) && spec_bool_ok(v, 1)
                && spec_nat_ok(v, 2, usize::MAX as nat) && spec_nat_ok(v, 3, u64::MAX as nat))
            &&& (r matches Ok(e) ==> e matches Event::ChallengeModeEnd {
                id,
                success,
                keystone_level,
                duration,
            } && id as nat == spec_nat_at(v, 0, usize::MAX as nat) && success == spec_bool_at(v, 1)
                && keystone_level as nat == spec_nat_at(v, 2, usize::MAX as nat) && duration as nat
                == spec_nat_at(v, 3, u64::MAX as nat))
        },
        EventType::WorldMarkerPlaced => {
            &&& (r is Ok <==> spec_nat_ok(v, 0, usize::MAX as nat) && spec_nat_ok(
                v,
                1,
                u8::MAX as nat,
            ) && 2 < v.len() && spec_fractional(v[2]) && 3 < v.len() && spec_fractional(v[3]))
            &&& (r matches Ok(e) ==> e matches Event::WorldMarkerPlaced { instance, marker, x, y }
                && instance as nat == spec_nat_at(v, 0, usize::MAX as nat) && marker
                == crate::event::flags::spec_raid_marker_id(spec_nat_at(v, 1, u8::MAX as nat) as u8)
                && x@ == v[2] && y@ == v[3])
        },
        EventType::WorldMarkerRemoved => {
            &&& (r is Ok <==> spec_nat_ok(v, 0, u8::MAX as nat))
            &&& (r matches Ok(e) ==> e matches Event::WorldMarkerRemoved { marker } && marker
                == crate::event::flags::spec_raid_marker_id(spec_nat_at(v, 0, u8::MAX as nat) as u8))
        },
        _ => r is Err,
    }
}

impl EventParser {
    /// Assembles a short-form line by indexing its fields directly.
    fn special_event(&self) -> (r: Result<Event, JastorError>)
        ensures
            spec_special_post(self.handler.params@, self.event_type, r),
    {
        match self.event_type {
            EventType::CombatLogVersion => {
                let version = self.handler.as_u8(0)?;
                let build = self.handler.as_string(4)?;
                Ok(Event::CombatLogVersion { version, build })
            },
            EventType::ZoneChange => {
                let instance = self.handler.as_usize(0)?;
                let name = self.handler.as_string(1)?;
                let difficulty = Difficulty::from_u16(self.handler.as_u16(2)?);
                Ok(Event::ZoneChange { id: instance, name, difficulty })
            },
            EventType::MapChange => {
                let id = self.handler.as_usize(0)?;
                let name = self.handler.as_string(1)?;
                let x0 = self.handler.as_fractional(2)?;
                let x1 = self.handler.as_fractional(2)?;
                let y0 = self.handler.as_fractional(2)?;
                let y1 = self.handler.as_fractional(2)?;
                Ok(Event::MapChange { id, name, x0, x1, y0, y1 })
            },
            EventType::StaggerClear => {
                let guid = self.handler.as_string(0)?;
                let value = self.handler.as_fractional(1)?;
                Ok(Event::StaggerClear { guid, value })
            },
            EventType::EncounterStart => {
                let id = self.handler.as_usize(0)?;
                let name = self.handler.as_string(1)?;
                let difficulty = Difficulty::from_u16(self.handler.as_u16(2)?);
                let size = self.handler.as_usize(3)?;
                let instance = self.handler.as_usize(4)?;
                Ok(Event::EncounterStart { id, name, difficulty, size, instance })
            },
            EventType::EncounterEnd => {
                let id = self.handler.as_usize(0)?;
                let name = self.handler.as_string(1)?;
                let difficulty = Difficulty::from_u16(self.handler.as_u16(2)?);
                let size = self.handler.as_usize(3)?;
                let success = self.handler.as_boolean(4)?;
                let length = self.handler.as_u64(5)?;
                Ok(Event::EncounterEnd { id, name, difficulty, size, success, length })
            },
            EventType::ArenaMatchStart => {
                let id = self.handler.as_usize(0)?;
                let unk = self.handler.as_usize(1)?;
                let match_type = self.handler.as_string(2)?;
                let team = self.handler.as_usize(3)?;
                Ok(Event::ArenaMatchStart { id, unk, match_type, team })
            },
            EventType::ArenaMatchEnd => {
                let winner = self.handler.as_usize(0)?;
                let duration = self.handler.as_u64(1)?;
                let team_one_rating = self.handler.as_usize(2)?;
                let team_two_rating = self.handler.as_usize(3)?;
                Ok(Event::ArenaMatchEnd { winner, duration, team_one_rating, team_two_rating })
            },
            EventType::ChallengeModeStart => {
                let name = self.handler.as_string(0)?;
                let id = self.handler.as_usize(1)?;
                let challenge_id = self.handler.as_usize(2)?;
                let keystone_level = self.handler.as_usize(3)?;
                let affix_text = self.handler.as_string(4)?;
                let ids = match parse_affix_ids(affix_text.as_str()) {
                    Some(ids) => ids,
                    None => {
                        let mut m = String::from_str("cannot parse affix list: ");
                        m.append(affix_text.as_str());
                        return Err(JastorError::ParseError(m));
                    },
                };
                let mut affixes: Vec<Affix> = Vec::new();
                let mut i: usize = 0;
                while i < ids.len()
                    invariant
                        i <= ids.len(),
                        affixes@.len() == i,
                        forall|k: int|
                            0 <= k < i ==> #[trigger] affixes@[k] == Affix::spec_from_u16(ids@[k]),
                    decreases ids.len() - i,
                {
                    affixes.push(Affix::from_u16(ids[i]));
                    i += 1;
                }
                Ok(Event::ChallengeModeStart { name, id, challenge_id, keystone_level, affixes })
            },
            EventType::ChallengeModeEnd => {
                let id = self.handler.as_usize(0)?;
                let success = self.handler.as_boolean(1)?;
                let keystone_level = self.handler.as_usize(2)?;
                let duration = self.handler.as_u64(3)?;
                Ok(Event::ChallengeModeEnd { id, success, keystone_level, duration })
            },
            EventType::WorldMarkerPlaced => {
                let instance = self.handler.as_usize(0)?;
                let marker = RaidMarker::from_u8(self.handler.as_u8(1)?);
                let x = self.handler.as_fractional(2)?;
                let y = self.handler.as_fractional(3)?;
                Ok(Event::WorldMarkerPlaced { instance, marker, x, y })
            },
            EventType::WorldMarkerRemoved => {
                let marker = RaidMarker::from_u8(self.handler.as_u8(0)?);
                Ok(Event::WorldMarkerRemoved { marker })
            },
            _ => Err(JastorError::InvalidSpecialEvent(self.event_type.label())),
        }
    }

    /// Assembles this line into an event: short-form tags index their fields
    /// directly, every other tag goes through the base/prefix/advanced/suffix
    /// windows of its layout.
    pub fn parse(&self) -> (r: Result<Event, JastorError>)
        ensures
            self.event_type.spec_has_short_parameters() ==> spec_special_post(
                self.handler.params@,
                self.event_type,
                r,
            ),
            !self.event_type.spec_has_short_parameters() ==> spec_combat_post(
                self.handler.params@,
                self.event_type,
                r,
            ),
    {
        if self.event_type.has_short_parameters() {
            return self.special_event();
        }
        self.combat_event()
    }
}

} // verus!
