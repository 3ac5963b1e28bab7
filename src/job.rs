//! The job taxonomy, role classification, job codes and job glyphs.

use vstd::prelude::*;

use crate::text::{is_glyph_id, is_glyph_name, is_shortcode, make_shortcode, shortcode, text_eq};

verus! {

/// A combat specialization, base classes included.
#[derive(Debug, Clone, Copy, PartialEq, Eq, Structural)]
pub enum Job {
    Gunbreaker,
    Paladin,
    Gladiator,
    DarkKnight,
    Warrior,
    Marauder,
    Scholar,
    Arcanist,
    Sage,
    Astrologian,
    WhiteMage,
    Conjurer,
    Samurai,
    Dragoon,
    Ninja,
    Monk,
    Reaper,
    Bard,
    Machinist,
    Dancer,
    BlackMage,
    BlueMage,
    Summoner,
    RedMage,
    Lancer,
    Pugilist,
    Rogue,
    Thaumaturge,
    Archer,
}

/// The coarse role a job plays in a party.
#[derive(Debug, Clone, Copy, PartialEq, Eq, Structural)]
pub enum Role {
    Tank,
    DPS,
    Healer,
}

/// The tank jobs, each advanced job with its base class.
pub open spec fn is_tank_job(j: Job) -> bool {
    matches!(j, Job::Paladin | Job::Gunbreaker | Job::DarkKnight | Job::Warrior | Job::Marauder | Job::Gladiator)
}

/// The healer jobs, each advanced job with its base class.
pub open spec fn is_healer_job(j: Job) -> bool {
    matches!(j, Job::Conjurer | Job::WhiteMage | Job::Scholar | Job::Astrologian | Job::Sage)
}

/// Tanks and healers by membership; every other job deals damage.
pub open spec fn role_of(j: Job) -> Role {
    if is_tank_job(j) {
        Role::Tank
    } else if is_healer_job(j) {
        Role::Healer
    } else {
        Role::DPS
    }
}

/// The name of the image registered for a job.
pub open spec fn job_glyph_name(j: Job) -> Seq<char> {
    match j {
        Job::Gunbreaker => "gunbreaker"@,
        Job::Paladin => "paladin"@,
        Job::Gladiator => "gladiator"@,
        Job::DarkKnight => "darkknight"@,
        Job::Warrior => "warrior"@,
        Job::Marauder => "marauder"@,
        Job::Scholar => "scholar"@,
        Job::Arcanist => "arcanist"@,
        Job::Sage => "sage"@,
        Job::Astrologian => "astrologian"@,
        Job::WhiteMage => "whitemage"@,
        Job::Conjurer => "conjurer"@,
        Job::Samurai => "samurai"@,
        Job::Dragoon => "dragoon"@,
        Job::Ninja => "ninja~1"@,
        Job::Monk => "monk"@,
        Job::Reaper => "reaper"@,
        Job::Bard => "bard"@,
        Job::Machinist => "machinist"@,
        Job::Dancer => "dancer~1"@,
        Job::BlackMage => "blackmage"@,
        Job::BlueMage => "bluemage"@,
        Job::Summoner => "summoner"@,
        Job::RedMage => "redmage"@,
        Job::Lancer => "lancer"@,
        Job::Pugilist => "pugilist"@,
        Job::Rogue => "rogue"@,
        Job::Thaumaturge => "thaumaturge"@,
        Job::Archer => "archer"@,
    }
}

/// The id of the image registered for a job.
pub open spec fn job_glyph_id(j: Job) -> Seq<char> {
    match j {
        Job::Gunbreaker => "1313310646376468500"@,
        Job::Paladin => "1313310727796162560"@,
        Job::Gladiator => "1313310643616485397"@,
        Job::DarkKnight => "985322469873303624"@,
        Job::Warrior => "1313310816367411200"@,
        Job::Marauder => "1313310659500441620"@,
        Job::Scholar => "1313310742816096327"@,
        Job::Arcanist => "1313310563350089798"@,
        Job::Sage => "1313310737824878602"@,
        Job::Astrologian => "1313310567217365012"@,
        Job::WhiteMage => "1313310818829340792"@,
        Job::Conjurer => "1313310574615986186"@,
        Job::Samurai => "1313310740228079656"@,
        Job::Dragoon => "1313310582862250085"@,
        Job::Ninja => "1313310663342293012"@,
        Job::Monk => "1313310661387878410"@,
        Job::Reaper => "1313310731541938266"@,
        Job::Bard => "1313310568794427443"@,
        Job::Machinist => "1313310657491239004"@,
        Job::Dancer => "1313310576616804352"@,
        Job::BlackMage => "1313310570530865183"@,
        Job::BlueMage => "1313310572078436353"@,
        Job::Summoner => "1313310803038044201"@,
        Job::RedMage => "1313310733110345802"@,
        Job::Lancer => "1313310655453073449"@,
        Job::Pugilist => "1313310729721352272"@,
        Job::Rogue => "1313310735761408030"@,
        Job::Thaumaturge => "1313310813733261363"@,
        Job::Archer => "1313310565317480458"@,
    }
}

/// The shortcode that shows a job.
pub open spec fn job_glyph(j: Job) -> Seq<char> {
    shortcode(job_glyph_name(j), job_glyph_id(j))
}

/// The canonical name of a job.
pub open spec fn job_name(j: Job) -> Seq<char> {
    match j {
        Job::Gunbreaker => "Gunbreaker"@,
        Job::Paladin => "Paladin"@,
        Job::Gladiator => "Gladiator"@,
        Job::DarkKnight => "DarkKnight"@,
        Job::Warrior => "Warrior"@,
        Job::Marauder => "Marauder"@,
        Job::Scholar => "Scholar"@,
        Job::Arcanist => "Arcanist"@,
        Job::Sage => "Sage"@,
        Job::Astrologian => "Astrologian"@,
        Job::WhiteMage => "WhiteMage"@,
        Job::Conjurer => "Conjurer"@,
        Job::Samurai => "Samurai"@,
        Job::Dragoon => "Dragoon"@,
        Job::Ninja => "Ninja"@,
        Job::Monk => "Monk"@,
        Job::Reaper => "Reaper"@,
        Job::Bard => "Bard"@,
        Job::Machinist => "Machinist"@,
        Job::Dancer => "Dancer"@,
        Job::BlackMage => "BlackMage"@,
        Job::BlueMage => "BlueMage"@,
        Job::Summoner => "Summoner"@,
        Job::RedMage => "RedMage"@,
        Job::Lancer => "Lancer"@,
        Job::Pugilist => "Pugilist"@,
        Job::Rogue => "Rogue"@,
        Job::Thaumaturge => "Thaumaturge"@,
        Job::Archer => "Archer"@,
    }
}

/// The job that a short code stands for, if any. The rogue and the arcanist
/// each have two codes.
pub open spec fn job_of_code(code: Seq<char>) -> Option<Job> {
    if code == "PLD"@ {
        Some(Job::Paladin)
    } else if code == "WAR"@ {
        Some(Job::Warrior)
    } else if code == "DRK"@ {
        Some(Job::DarkKnight)
    } else if code == "GNB"@ {
        Some(Job::Gunbreaker)
    } else if code == "GLD"@ {
        Some(Job::Gladiator)
    } else if code == "MRD"@ {
        Some(Job::Marauder)
    } else if code == "WHM"@ {
        Some(Job::WhiteMage)
    } else if code == "SCH"@ {
        Some(Job::Scholar)
    } else if code == "AST"@ {
        Some(Job::Astrologian)
    } else if code == "SGE"@ {
        Some(Job::Sage)
    } else if code == "CNJ"@ {
        Some(Job::Conjurer)
    } else if code == "ARN"@ {
        Some(Job::Arcanist)
    } else if code == "MNK"@ {
        Some(Job::Monk)
    } else if code == "PGL"@ {
        Some(Job::Pugilist)
    } else if code == "DRG"@ {
        Some(Job::Dragoon)
    } else if code == "LNC"@ {
        Some(Job::Lancer)
    } else if code == "NIN"@ {
        Some(Job::Ninja)
    } else if code == "ROG"@ {
        Some(Job::Rogue)
    } else if code == "SAM"@ {
        Some(Job::Samurai)
    } else if code == "RPR"@ {
        Some(Job::Reaper)
    } else if code == "BRD"@ {
        Some(Job::Bard)
    } else if code == "ARC"@ {
        Some(Job::Archer)
    } else if code == "MCH"@ {
        Some(Job::Machinist)
    } else if code == "DNC"@ {
        Some(Job::Dancer)
    } else if code == "BLM"@ {
        Some(Job::BlackMage)
    } else if code == "SMN"@ {
        Some(Job::Summoner)
    } else if code == "BLU"@ {
        Some(Job::BlueMage)
    } else if code == "RDM"@ {
        Some(Job::RedMage)
    } else if code == "RGE"@ {
        Some(Job::Rogue)
    } else if code == "THM"@ {
        Some(Job::Thaumaturge)
    } else if code == "ACN"@ {
        Some(Job::Arcanist)
    } else {
        None
    }
}

impl Job {
    /// Parses an exact, case-sensitive job code such as `PLD`.
    pub fn parse(code: &str) -> (r: Result<Job, ()>)
        ensures
            r == (match job_of_code(code@) {
                Some(j) => Ok(j),
                None => Err(()),
            }),
    {
        if text_eq(code, "PLD") {
            return Ok(Job::Paladin);
        }
        if text_eq(code, "WAR") {
            return Ok(Job::Warrior);
        }
        if text_eq(code, "DRK") {
            return Ok(Job::DarkKnight);
        }
        if text_eq(code, "GNB") {
            return Ok(Job::Gunbreaker);
        }
        if text_eq(code, "GLD") {
            return Ok(Job::Gladiator);
        }
        if text_eq(code, "MRD") {
            return Ok(Job::Marauder);
        }
        if text_eq(code, "WHM") {
            return Ok(Job::WhiteMage);
        }
        if text_eq(code, "SCH") {
            return Ok(Job::Scholar);
        }
        if text_eq(code, "AST") {
            return Ok(Job::Astrologian);
        }
        if text_eq(code, "SGE") {
            return Ok(Job::Sage);
        }
        if text_eq(code, "CNJ") {
            return Ok(Job::Conjurer);
        }
        if text_eq(code, "ARN") {
            return Ok(Job::Arcanist);
        }
        if text_eq(code, "MNK") {
            return Ok(Job::Monk);
        }
        if text_eq(code, "PGL") {
            return Ok(Job::Pugilist);
        }
        if text_eq(code, "DRG") {
            return Ok(Job::Dragoon);
        }
        if text_eq(code, "LNC") {
            return Ok(Job::Lancer);
        }
        if text_eq(code, "NIN") {
            return Ok(Job::Ninja);
        }
        if text_eq(code, "ROG") {
            return Ok(Job::Rogue);
        }
        if text_eq(code, "SAM") {
            return Ok(Job::Samurai);
        }
        if text_eq(code, "RPR") {
            return Ok(Job::Reaper);
        }
        if text_eq(code, "BRD") {
            return Ok(Job::Bard);
        }
        if text_eq(code, "ARC") {
            return Ok(Job::Archer);
        }
        if text_eq(code, "MCH") {
            return Ok(Job::Machinist);
        }
        if text_eq(code, "DNC") {
            return Ok(Job::Dancer);
        }
        if text_eq(code, "BLM") {
            return Ok(Job::BlackMage);
        }
        if text_eq(code, "SMN") {
            return Ok(Job::Summoner);
        }
        if text_eq(code, "BLU") {
            return Ok(Job::BlueMage);
        }
        if text_eq(code, "RDM") {
            return Ok(Job::RedMage);
        }
        if text_eq(code, "RGE") {
            return Ok(Job::Rogue);
        }
        if text_eq(code, "THM") {
            return Ok(Job::Thaumaturge);
        }
        if text_eq(code, "ACN") {
            return Ok(Job::Arcanist);
        }
        Err(())
    }

    /// The role this job plays.
    pub fn get_role(&self) -> (r: Role)
        ensures
            r == role_of(*self),
    {
        match self {
            Job::Paladin | Job::Gunbreaker | Job::DarkKnight | Job::Warrior | Job::Marauder | Job::Gladiator => Role::Tank,
            Job::Conjurer | Job::WhiteMage | Job::Scholar | Job::Astrologian | Job::Sage => Role::Healer,
            _ => Role::DPS,
        }
    }

    fn glyph_name(&self) -> (r: &'static str)
        ensures
            r@ == job_glyph_name(*self),
    {
        match self {
            Job::Gunbreaker => "gunbreaker",
            Job::Paladin => "paladin",
            Job::Gladiator => "gladiator",
            Job::DarkKnight => "darkknight",
            Job::Warrior => "warrior",
            Job::Marauder => "marauder",
            Job::Scholar => "scholar",
            Job::Arcanist => "arcanist",
            Job::Sage => "sage",
            Job::Astrologian => "astrologian",
            Job::WhiteMage => "whitemage",
            Job::Conjurer => "conjurer",
            Job::Samurai => "samurai",
            Job::Dragoon => "dragoon",
            Job::Ninja => "ninja~1",
            Job::Monk => "monk",
            Job::Reaper => "reaper",
            Job::Bard => "bard",
            Job::Machinist => "machinist",
            Job::Dancer => "dancer~1",
            Job::BlackMage => "blackmage",
            Job::BlueMage => "bluemage",
            Job::Summoner => "summoner",
            Job::RedMage => "redmage",
            Job::Lancer => "lancer",
            Job::Pugilist => "pugilist",
            Job::Rogue => "rogue",
            Job::Thaumaturge => "thaumaturge",
            Job::Archer => "archer",
        }
    }

    fn glyph_id(&self) -> (r: &'static str)
        ensures
            r@ == job_glyph_id(*self),
    {
        match self {
            Job::Gunbreaker => "1313310646376468500",
            Job::Paladin => "1313310727796162560",
            Job::Gladiator => "1313310643616485397",
            Job::DarkKnight => "985322469873303624",
            Job::Warrior => "1313310816367411200",
            Job::Marauder => "1313310659500441620",
            Job::Scholar => "1313310742816096327",
            Job::Arcanist => "1313310563350089798",
            Job::Sage => "1313310737824878602",
            Job::Astrologian => "1313310567217365012",
            Job::WhiteMage => "1313310818829340792",
            Job::Conjurer => "1313310574615986186",
            Job::Samurai => "1313310740228079656",
            Job::Dragoon => "1313310582862250085",
            Job::Ninja => "1313310663342293012",
            Job::Monk => "1313310661387878410",
            Job::Reaper => "1313310731541938266",
            Job::Bard => "1313310568794427443",
            Job::Machinist => "1313310657491239004",
            Job::Dancer => "1313310576616804352",
            Job::BlackMage => "1313310570530865183",
            Job::BlueMage => "1313310572078436353",
            Job::Summoner => "1313310803038044201",
            Job::RedMage => "1313310733110345802",
            Job::Lancer => "1313310655453073449",
            Job::Pugilist => "1313310729721352272",
            Job::Rogue => "1313310735761408030",
            Job::Thaumaturge => "1313310813733261363",
            Job::Archer => "1313310565317480458",
        }
    }

    /// The shortcode of the image that shows this job.
    pub fn get_emoji_string(&self) -> (r: String)
        ensures
            r@ == job_glyph(*self),
    {
        make_shortcode(self.glyph_name(), self.glyph_id())
    }

    /// The canonical name of this job.
    pub fn name(&self) -> (r: &'static str)
        ensures
            r@ == job_name(*self),
    {
        match self {
            Job::Gunbreaker => "Gunbreaker",
            Job::Paladin => "Paladin",
            Job::Gladiator => "Gladiator",
            Job::DarkKnight => "DarkKnight",
            Job::Warrior => "Warrior",
            Job::Marauder => "Marauder",
            Job::Scholar => "Scholar",
            Job::Arcanist => "Arcanist",
            Job::Sage => "Sage",
            Job::Astrologian => "Astrologian",
            Job::WhiteMage => "WhiteMage",
            Job::Conjurer => "Conjurer",
            Job::Samurai => "Samurai",
            Job::Dragoon => "Dragoon",
            Job::Ninja => "Ninja",
            Job::Monk => "Monk",
            Job::Reaper => "Reaper",
            Job::Bard => "Bard",
            Job::Machinist => "Machinist",
            Job::Dancer => "Dancer",
            Job::BlackMage => "BlackMage",
            Job::BlueMage => "BlueMage",
            Job::Summoner => "Summoner",
            Job::RedMage => "RedMage",
            Job::Lancer => "Lancer",
            Job::Pugilist => "Pugilist",
            Job::Rogue => "Rogue",
            Job::Thaumaturge => "Thaumaturge",
            Job::Archer => "Archer",
        }
    }

    /// The canonical name of this job, as an owned string.
    pub fn to_string(&self) -> (r: String)
        ensures
            r@ == job_name(*self),
    {
        self.name().to_owned()
    }
}

impl std::str::FromStr for Job {
    type Err = ();

    fn from_str(input: &str) -> (r: Result<Job, ()>)
        ensures
            r == (match job_of_code(input@) {
                Some(j) => Ok(j),
                None => Err(()),
            }),
    {
        Job::parse(input)
    }
}

/// Every job has exactly one role: tanks and healers are disjoint, and the
/// role is tank exactly for the tanks, healer exactly for the healers, and
/// damage for the rest.
pub proof fn lemma_role_partition(j: Job)
    ensures
        !(is_tank_job(j) && is_healer_job(j)),
        (role_of(j) == Role::Tank) == is_tank_job(j),
        (role_of(j) == Role::Healer) == is_healer_job(j),
        (role_of(j) == Role::DPS) == (!is_tank_job(j) && !is_healer_job(j)),
{
}

/// Every job's glyph is a non-empty, well-formed `<:name:id>` shortcode.
pub proof fn lemma_job_glyph_well_formed(j: Job)
    ensures
        is_shortcode(job_glyph(j)),
        job_glyph(j).len() > 0,
{
    match j {
        Job::Gunbreaker => {
            reveal_strlit("gunbreaker");
            reveal_strlit("1313310646376468500");
        },
        Job::Paladin => {
            reveal_strlit("paladin");
            reveal_strlit("1313310727796162560");
        },
        Job::Gladiator => {
            reveal_strlit("gladiator");
            reveal_strlit("1313310643616485397");
        },
        Job::DarkKnight => {
            reveal_strlit("darkknight");
            reveal_strlit("985322469873303624");
        },
        Job::Warrior => {
            reveal_strlit("warrior");
            reveal_strlit("1313310816367411200");
        },
        Job::Marauder => {
            reveal_strlit("marauder");
            reveal_strlit("1313310659500441620");
        },
        Job::Scholar => {
            reveal_strlit("scholar");
            reveal_strlit("1313310742816096327");
        },
        Job::Arcanist => {
            reveal_strlit("arcanist");
            reveal_strlit("1313310563350089798");
        },
        Job::Sage => {
            reveal_strlit("sage");
            reveal_strlit("1313310737824878602");
        },
        Job::Astrologian => {
            reveal_strlit("astrologian");
            reveal_strlit("1313310567217365012");
        },
        Job::WhiteMage => {
            reveal_strlit("whitemage");
            reveal_strlit("1313310818829340792");
        },
        Job::Conjurer => {
            reveal_strlit("conjurer");
            reveal_strlit("1313310574615986186");
        },
        Job::Samurai => {
            reveal_strlit("samurai");
            reveal_strlit("1313310740228079656");
        },
        Job::Dragoon => {
            reveal_strlit("dragoon");
            reveal_strlit("1313310582862250085");
        },
        Job::Ninja => {
            reveal_strlit("ninja~1");
            reveal_strlit("1313310663342293012");
        },
        Job::Monk => {
            reveal_strlit("monk");
            reveal_strlit("1313310661387878410");
        },
        Job::Reaper => {
            reveal_strlit("reaper");
            reveal_strlit("1313310731541938266");
        },
        Job::Bard => {
            reveal_strlit("bard");
            reveal_strlit("1313310568794427443");
        },
        Job::Machinist => {
            reveal_strlit("machinist");
            reveal_strlit("1313310657491239004");
        },
        Job::Dancer => {
            reveal_strlit("dancer~1");
            reveal_strlit("1313310576616804352");
        },
        Job::BlackMage => {
            reveal_strlit("blackmage");
            reveal_strlit("1313310570530865183");
        },
        Job::BlueMage => {
            reveal_strlit("bluemage");
            reveal_strlit("1313310572078436353");
        },
        Job::Summoner => {
            reveal_strlit("summoner");
            reveal_strlit("1313310803038044201");
        },
        Job::RedMage => {
            reveal_strlit("redmage");
            reveal_strlit("1313310733110345802");
        },
        Job::Lancer => {
            reveal_strlit("lancer");
            reveal_strlit("1313310655453073449");
        },
        Job::Pugilist => {
            reveal_strlit("pugilist");
            reveal_strlit("1313310729721352272");
        },
        Job::Rogue => {
            reveal_strlit("rogue");
            reveal_strlit("1313310735761408030");
        },
        Job::Thaumaturge => {
            reveal_strlit("thaumaturge");
            reveal_strlit("1313310813733261363");
        },
        Job::Archer => {
            reveal_strlit("archer");
            reveal_strlit("1313310565317480458");
        },
    }
    assert(is_glyph_name(job_glyph_name(j)));
    assert(is_glyph_id(job_glyph_id(j)));
    assert(is_shortcode(shortcode(job_glyph_name(j), job_glyph_id(j))));
}

pub open spec fn is_upper(c: char) -> bool {
    'A' <= c && c <= 'Z'
}

/// The letters of each job code.
proof fn lemma_code_chars()
    ensures
        "PLD"@.len() == 3 && "PLD"@[0] == 'P' && "PLD"@[1] == 'L' && "PLD"@[2] == 'D',
        "WAR"@.len() == 3 && "WAR"@[0] == 'W' && "WAR"@[1] == 'A' && "WAR"@[2] == 'R',
        "DRK"@.len() == 3 && "DRK"@[0] == 'D' && "DRK"@[1] == 'R' && "DRK"@[2] == 'K',
        "GNB"@.len() == 3 && "GNB"@[0] == 'G' && "GNB"@[1] == 'N' && "GNB"@[2] == 'B',
        "GLD"@.len() == 3 && "GLD"@[0] == 'G' && "GLD"@[1] == 'L' && "GLD"@[2] == 'D',
        "MRD"@.len() == 3 && "MRD"@[0] == 'M' && "MRD"@[1] == 'R' && "MRD"@[2] == 'D',
        "WHM"@.len() == 3 && "WHM"@[0] == 'W' && "WHM"@[1] == 'H' && "WHM"@[2] == 'M',
        "SCH"@.len() == 3 && "SCH"@[0] == 'S' && "SCH"@[1] == 'C' && "SCH"@[2] == 'H',
        "AST"@.len() == 3 && "AST"@[0] == 'A' && "AST"@[1] == 'S' && "AST"@[2] == 'T',
        "SGE"@.len() == 3 && "SGE"@[0] == 'S' && "SGE"@[1] == 'G' && "SGE"@[2] == 'E',
        "CNJ"@.len() == 3 && "CNJ"@[0] == 'C' && "CNJ"@[1] == 'N' && "CNJ"@[2] == 'J',
        "ARN"@.len() == 3 && "ARN"@[0] == 'A' && "ARN"@[1] == 'R' && "ARN"@[2] == 'N',
        "MNK"@.len() == 3 && "MNK"@[0] == 'M' && "MNK"@[1] == 'N' && "MNK"@[2] == 'K',
        "PGL"@.len() == 3 && "PGL"@[0] == 'P' && "PGL"@[1] == 'G' && "PGL"@[2] == 'L',
        "DRG"@.len() == 3 && "DRG"@[0] == 'D' && "DRG"@[1] == 'R' && "DRG"@[2] == 'G',
        "LNC"@.len() == 3 && "LNC"@[0] == 'L' && "LNC"@[1] == 'N' && "LNC"@[2] == 'C',
        "NIN"@.len() == 3 && "NIN"@[0] == 'N' && "NIN"@[1] == 'I' && "NIN"@[2] == 'N',
        "ROG"@.len() == 3 && "ROG"@[0] == 'R' && "ROG"@[1] == 'O' && "ROG"@[2] == 'G',
        "SAM"@.len() == 3 && "SAM"@[0] == 'S' && "SAM"@[1] == 'A' && "SAM"@[2] == 'M',
        "RPR"@.len() == 3 && "RPR"@[0] == 'R' && "RPR"@[1] == 'P' && "RPR"@[2] == 'R',
        "BRD"@.len() == 3 && "BRD"@[0] == 'B' && "BRD"@[1] == 'R' && "BRD"@[2] == 'D',
        "ARC"@.len() == 3 && "ARC"@[0] == 'A' && "ARC"@[1] == 'R' && "ARC"@[2] == 'C',
        "MCH"@.len() == 3 && "MCH"@[0] == 'M' && "MCH"@[1] == 'C' && "MCH"@[2] == 'H',
        "DNC"@.len() == 3 && "DNC"@[0] == 'D' && "DNC"@[1] == 'N' && "DNC"@[2] == 'C',
        "BLM"@.len() == 3 && "BLM"@[0] == 'B' && "BLM"@[1] == 'L' && "BLM"@[2] == 'M',
        "SMN"@.len() == 3 && "SMN"@[0] == 'S' && "SMN"@[1] == 'M' && "SMN"@[2] == 'N',
        "BLU"@.len() == 3 && "BLU"@[0] == 'B' && "BLU"@[1] == 'L' && "BLU"@[2] == 'U',
        "RDM"@.len() == 3 && "RDM"@[0] == 'R' && "RDM"@[1] == 'D' && "RDM"@[2] == 'M',
        "RGE"@.len() == 3 && "RGE"@[0] == 'R' && "RGE"@[1] == 'G' && "RGE"@[2] == 'E',
        "THM"@.len() == 3 && "THM"@[0] == 'T' && "THM"@[1] == 'H' && "THM"@[2] == 'M',
        "ACN"@.len() == 3 && "ACN"@[0] == 'A' && "ACN"@[1] == 'C' && "ACN"@[2] == 'N',
{
    reveal_strlit("PLD");
    reveal_strlit("WAR");
    reveal_strlit("DRK");
    reveal_strlit("GNB");
    reveal_strlit("GLD");
    reveal_strlit("MRD");
    reveal_strlit("WHM");
    reveal_strlit("SCH");
    reveal_strlit("AST");
    reveal_strlit("SGE");
    reveal_strlit("CNJ");
    reveal_strlit("ARN");
    reveal_strlit("MNK");
    reveal_strlit("PGL");
    reveal_strlit("DRG");
    reveal_strlit("LNC");
    reveal_strlit("NIN");
    reveal_strlit("ROG");
    reveal_strlit("SAM");
    reveal_strlit("RPR");
    reveal_strlit("BRD");
    reveal_strlit("ARC");
    reveal_strlit("MCH");
    reveal_strlit("DNC");
    reveal_strlit("BLM");
    reveal_strlit("SMN");
    reveal_strlit("BLU");
    reveal_strlit("RDM");
    reveal_strlit("RGE");
    reveal_strlit("THM");
    reveal_strlit("ACN");
}

/// A code that parses is three upper-case letters.
pub proof fn lemma_code_shape(code: Seq<char>)
    requires
        job_of_code(code) is Some,
    ensures
        code.len() == 3,
        forall|i: int| 0 <= i < code.len() ==> is_upper(#[trigger] code[i]),
{
    lemma_code_chars();
}

/// A code that names a job.
pub open spec fn job_code(j: Job) -> Seq<char> {
    match j {
        Job::Paladin => "PLD"@,
        Job::Warrior => "WAR"@,
        Job::DarkKnight => "DRK"@,
        Job::Gunbreaker => "GNB"@,
        Job::Gladiator => "GLD"@,
        Job::Marauder => "MRD"@,
        Job::WhiteMage => "WHM"@,
        Job::Scholar => "SCH"@,
        Job::Astrologian => "AST"@,
        Job::Sage => "SGE"@,
        Job::Conjurer => "CNJ"@,
        Job::Arcanist => "ARN"@,
        Job::Monk => "MNK"@,
        Job::Pugilist => "PGL"@,
        Job::Dragoon => "DRG"@,
        Job::Lancer => "LNC"@,
        Job::Ninja => "NIN"@,
        Job::Rogue => "ROG"@,
        Job::Samurai => "SAM"@,
        Job::Reaper => "RPR"@,
        Job::Bard => "BRD"@,
        Job::Archer => "ARC"@,
        Job::Machinist => "MCH"@,
        Job::Dancer => "DNC"@,
        Job::BlackMage => "BLM"@,
        Job::Summoner => "SMN"@,
        Job::BlueMage => "BLU"@,
        Job::RedMage => "RDM"@,
        Job::Thaumaturge => "THM"@,
    }
}

/// Every job can be parsed: some code names it.
pub proof fn lemma_every_job_has_code(j: Job)
    ensures
        job_of_code(job_code(j)) == Some(j),
{
    lemma_code_chars();
}

} // verus!
