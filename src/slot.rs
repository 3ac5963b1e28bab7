//! Recruitment slots and the glyph that shows what a slot is open to.

use vstd::prelude::*;

use crate::job::{job_glyph, job_name, role_of, Job, Role};
use crate::text::{is_glyph_id, is_glyph_name, is_shortcode, make_shortcode, shortcode};

verus! {

/// One recruitment position: the jobs it is open to, and whether it is taken.
/// A taken slot lists the job that took it first.
#[derive(Debug, Clone)]
pub struct Slot {
    pub available_jobs: Vec<Job>,
    pub filled: bool,
}

/// Some job in `jobs` plays `role`.
pub open spec fn has_role(jobs: Seq<Job>, role: Role) -> bool {
    exists|i: int| 0 <= i < jobs.len() && role_of(#[trigger] jobs[i]) == role
}

/// The image name for a combination of open roles: the role names in the
/// order tank, healer, damage.
pub open spec fn coverage_glyph_name(tank: bool, healer: bool, dps: bool) -> Seq<char> {
    (if tank { "tank"@ } else { Seq::empty() })
        + (if healer { "healer"@ } else { Seq::empty() })
        + (if dps { "dps"@ } else { Seq::empty() })
}

/// The image id for a combination of open roles.
pub open spec fn coverage_glyph_id(tank: bool, healer: bool, dps: bool) -> Seq<char> {
    if tank && healer && dps {
        "985322491398459482"@
    } else if tank && healer {
        "985322490375049246"@
    } else if tank && dps {
        "985322489422958662"@
    } else if tank {
        "985322488332443668"@
    } else if healer && dps {
        "985322474923233390"@
    } else if healer {
        "985322474134704138"@
    } else {
        "985322470326280213"@
    }
}

/// The glyph for a combination of open roles; empty when no role is open.
pub open spec fn coverage_glyph(tank: bool, healer: bool, dps: bool) -> Seq<char> {
    if !tank && !healer && !dps {
        Seq::empty()
    } else {
        shortcode(coverage_glyph_name(tank, healer, dps), coverage_glyph_id(tank, healer, dps))
    }
}

/// The glyph of a slot: a taken slot shows the job that took it (nothing when
/// no job is listed); an open slot shows which roles it is open to.
pub open spec fn slot_glyph(jobs: Seq<Job>, filled: bool) -> Seq<char> {
    if filled {
        if jobs.len() > 0 {
            job_glyph(jobs[0])
        } else {
            Seq::empty()
        }
    } else {
        coverage_glyph(
            has_role(jobs, Role::Tank),
            has_role(jobs, Role::Healer),
            has_role(jobs, Role::DPS),
        )
    }
}

/// One line per job, as a pretty-printed list shows them.
pub open spec fn job_lines(jobs: Seq<Job>) -> Seq<char>
    decreases jobs.len(),
{
    if jobs.len() == 0 {
        Seq::empty()
    } else {
        job_lines(jobs.drop_last()) + "    "@ + job_name(jobs.last()) + ",\n"@
    }
}

/// A list of jobs, pretty-printed: `[]`, or one job per indented line.
pub open spec fn job_list_text(jobs: Seq<Job>) -> Seq<char> {
    if jobs.len() == 0 {
        "[]"@
    } else {
        "[\n"@ + job_lines(jobs) + "]"@
    }
}

pub open spec fn bool_text(b: bool) -> Seq<char> {
    if b {
        "true"@
    } else {
        "false"@
    }
}

/// The text of a slot: `Slot(<jobs>, <filled>)`.
pub open spec fn slot_text(jobs: Seq<Job>, filled: bool) -> Seq<char> {
    "Slot("@ + job_list_text(jobs) + ", "@ + bool_text(filled) + ")"@
}

fn contains_role(jobs: &Vec<Job>, role: Role) -> (r: bool)
    ensures
        r == has_role(jobs@, role),
{
    let mut i: usize = 0;
    while i < jobs.len()
        invariant
            i <= jobs.len(),
            forall|k: int| 0 <= k < i ==> role_of(#[trigger] jobs@[k]) != role,
        decreases jobs.len() - i,
    {
        if jobs[i].get_role() == role {
            assert(role_of(jobs@[i as int]) == role);
            return true;
        }
        i = i + 1;
    }
    false
}

fn coverage_id(tank: bool, healer: bool, dps: bool) -> (r: &'static str)
    ensures
        r@ == coverage_glyph_id(tank, healer, dps),
{
    if tank && healer && dps {
        "985322491398459482"
    } else if tank && healer {
        "985322490375049246"
    } else if tank && dps {
        "985322489422958662"
    } else if tank {
        "985322488332443668"
    } else if healer && dps {
        "985322474923233390"
    } else if healer {
        "985322474134704138"
    } else {
        "985322470326280213"
    }
}

/// The glyph for a combination of open roles.
pub fn coverage_glyph_string(tank: bool, healer: bool, dps: bool) -> (r: String)
    ensures
        r@ == coverage_glyph(tank, healer, dps),
{
    if !tank && !healer && !dps {
        return String::new();
    }
    let mut name = String::new();
    if tank {
        name = name.concat("tank");
    }
    if healer {
        name = name.concat("healer");
    }
    if dps {
        name = name.concat("dps");
    }
    assert(name@ =~= coverage_glyph_name(tank, healer, dps));
    make_shortcode(name.as_str(), coverage_id(tank, healer, dps))
}

impl Slot {
    /// The slot as text: its jobs pretty-printed, then whether it is taken.
    pub fn to_string(&self) -> (r: String)
        ensures
            r@ == slot_text(self.available_jobs@, self.filled),
    {
        let jobs = &self.available_jobs;
        let mut list = String::new();
        if jobs.len() == 0 {
            list = list.concat("[]");
        } else {
            list = list.concat("[\n");
            let mut i: usize = 0;
            while i < jobs.len()
                invariant
                    i <= jobs.len(),
                    jobs.len() > 0,
                    list@ == "[\n"@ + job_lines(jobs@.subrange(0, i as int)),
                decreases jobs.len() - i,
            {
                assert(jobs@.subrange(0, i + 1).drop_last() =~= jobs@.subrange(0, i as int));
                list = list.concat("    ").concat(jobs[i].name()).concat(",\n");
                i = i + 1;
            }
            assert(jobs@.subrange(0, jobs@.len() as int) =~= jobs@);
            list = list.concat("]");
        }
        let filled = if self.filled { "true" } else { "false" };
        let r = "Slot(".to_owned().concat(list.as_str()).concat(", ").concat(filled).concat(")");
        proof {
            assert(r@ =~= slot_text(self.available_jobs@, self.filled));
        }
        r
    }

    /// The glyph that shows this slot: the taking job's glyph for a taken
    /// slot, else the glyph of the roles it is open to.
    pub fn get_emoji_string(&self) -> (r: String)
        ensures
            r@ == slot_glyph(self.available_jobs@, self.filled),
    {
        if self.filled {
            if self.available_jobs.len() > 0 {
                self.available_jobs[0].get_emoji_string()
            } else {
                String::new()
            }
        } else {
            let tank = contains_role(&self.available_jobs, Role::Tank);
            let healer = contains_role(&self.available_jobs, Role::Healer);
            let dps = contains_role(&self.available_jobs, Role::DPS);
            coverage_glyph_string(tank, healer, dps)
        }
    }
}

proof fn lemma_coverage_glyph_len(tank: bool, healer: bool, dps: bool)
    ensures
        coverage_glyph(tank, healer, dps).len() == if !tank && !healer && !dps {
            0int
        } else {
            22 + (if tank { 4int } else { 0 }) + (if healer { 6int } else { 0 }) + (if dps {
                3int
            } else {
                0
            })
        },
{
    reveal_strlit("tank");
    reveal_strlit("healer");
    reveal_strlit("dps");
    reveal_strlit("985322491398459482");
    reveal_strlit("985322490375049246");
    reveal_strlit("985322489422958662");
    reveal_strlit("985322488332443668");
    reveal_strlit("985322474923233390");
    reveal_strlit("985322474134704138");
    reveal_strlit("985322470326280213");
    reveal_strlit("<:");
    reveal_strlit(":");
    reveal_strlit(">");
}

/// The eight combinations of open roles give eight different glyphs; only
/// the combination with no open role gives the empty one.
pub proof fn lemma_coverage_glyphs_distinct(
    tank1: bool,
    healer1: bool,
    dps1: bool,
    tank2: bool,
    healer2: bool,
    dps2: bool,
)
    ensures
        coverage_glyph(tank1, healer1, dps1) == coverage_glyph(tank2, healer2, dps2) ==> (
        tank1 == tank2 && healer1 == healer2 && dps1 == dps2),
        (coverage_glyph(tank1, healer1, dps1).len() == 0) == (!tank1 && !healer1 && !dps1),
{
    lemma_coverage_glyph_len(tank1, healer1, dps1);
    lemma_coverage_glyph_len(tank2, healer2, dps2);
}

/// An open slot's glyph is decided by the roles its jobs cover: two open
/// slots show the same glyph exactly when they cover the same roles.
pub proof fn lemma_open_slot_glyph_by_coverage(a: Seq<Job>, b: Seq<Job>)
    ensures
        (slot_glyph(a, false) == slot_glyph(b, false)) == (has_role(a, Role::Tank) == has_role(
            b,
            Role::Tank,
        ) && has_role(a, Role::Healer) == has_role(b, Role::Healer) && has_role(a, Role::DPS)
            == has_role(b, Role::DPS)),
{
    lemma_coverage_glyphs_distinct(
        has_role(a, Role::Tank),
        has_role(a, Role::Healer),
        has_role(a, Role::DPS),
        has_role(b, Role::Tank),
        has_role(b, Role::Healer),
        has_role(b, Role::DPS),
    );
}

/// Whenever some role is open, the glyph is a well-formed `<:name:id>` shortcode.
pub proof fn lemma_coverage_glyph_well_formed(tank: bool, healer: bool, dps: bool)
    requires
        tank || healer || dps,
    ensures
        is_shortcode(coverage_glyph(tank, healer, dps)),
{
    reveal_strlit("tank");
    reveal_strlit("healer");
    reveal_strlit("dps");
    reveal_strlit("985322491398459482");
    reveal_strlit("985322490375049246");
    reveal_strlit("985322489422958662");
    reveal_strlit("985322488332443668");
    reveal_strlit("985322474923233390");
    reveal_strlit("985322474134704138");
    reveal_strlit("985322470326280213");
    let name = coverage_glyph_name(tank, healer, dps);
    let id = coverage_glyph_id(tank, healer, dps);
    assert(is_glyph_name(name));
    assert(is_glyph_id(id));
}

} // verus!
