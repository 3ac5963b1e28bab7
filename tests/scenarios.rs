use std::str::FromStr;

use xiv_util::duty::DEFAULT_DUTY_COLOR;
use xiv_util::slot::coverage_glyph_string;
use xiv_util::{get_color_from_duty, text_eq, Job, Role, Slot};

const ALL_JOBS: [Job; 29] = [
    Job::Gunbreaker,
    Job::Paladin,
    Job::Gladiator,
    Job::DarkKnight,
    Job::Warrior,
    Job::Marauder,
    Job::Scholar,
    Job::Arcanist,
    Job::Sage,
    Job::Astrologian,
    Job::WhiteMage,
    Job::Conjurer,
    Job::Samurai,
    Job::Dragoon,
    Job::Ninja,
    Job::Monk,
    Job::Reaper,
    Job::Bard,
    Job::Machinist,
    Job::Dancer,
    Job::BlackMage,
    Job::BlueMage,
    Job::Summoner,
    Job::RedMage,
    Job::Lancer,
    Job::Pugilist,
    Job::Rogue,
    Job::Thaumaturge,
    Job::Archer,
];

fn slot(jobs: Vec<Job>, filled: bool) -> Slot {
    Slot { available_jobs: jobs, filled }
}

#[test]
fn parse_paladin_is_tank() {
    let job = Job::parse("PLD");
    assert_eq!(job, Ok(Job::Paladin));
    assert_eq!(job.unwrap().get_role(), Role::Tank);
}

#[test]
fn parse_unknown_code_fails() {
    assert_eq!(Job::parse("ZZZ"), Err(()));
}

#[test]
fn parse_is_exact_and_case_sensitive() {
    assert_eq!(Job::parse("pld"), Err(()));
    assert_eq!(Job::parse(" PLD"), Err(()));
    assert_eq!(Job::parse("PLD "), Err(()));
    assert_eq!(Job::parse("PL"), Err(()));
    assert_eq!(Job::parse(""), Err(()));
    assert_eq!(Job::parse("Paladin"), Err(()));
}

#[test]
fn parse_every_known_code() {
    let table = [
        ("PLD", Job::Paladin),
        ("WAR", Job::Warrior),
        ("DRK", Job::DarkKnight),
        ("GNB", Job::Gunbreaker),
        ("GLD", Job::Gladiator),
        ("MRD", Job::Marauder),
        ("WHM", Job::WhiteMage),
        ("SCH", Job::Scholar),
        ("AST", Job::Astrologian),
        ("SGE", Job::Sage),
        ("CNJ", Job::Conjurer),
        ("ARN", Job::Arcanist),
        ("MNK", Job::Monk),
        ("PGL", Job::Pugilist),
        ("DRG", Job::Dragoon),
        ("LNC", Job::Lancer),
        ("NIN", Job::Ninja),
        ("ROG", Job::Rogue),
        ("SAM", Job::Samurai),
        ("RPR", Job::Reaper),
        ("BRD", Job::Bard),
        ("ARC", Job::Archer),
        ("MCH", Job::Machinist),
        ("DNC", Job::Dancer),
        ("BLM", Job::BlackMage),
        ("SMN", Job::Summoner),
        ("BLU", Job::BlueMage),
        ("RDM", Job::RedMage),
        ("RGE", Job::Rogue),
        ("THM", Job::Thaumaturge),
        ("ACN", Job::Arcanist),
    ];
    for (code, job) in table.iter() {
        assert_eq!(Job::parse(code), Ok(*job), "code {}", code);
        assert_eq!(Job::from_str(code), Ok(*job));
    }
    for job in ALL_JOBS.iter() {
        assert!(table.iter().any(|(_, j)| j == job), "{:?} has a code", job);
    }
}

#[test]
fn from_str_matches_parse() {
    assert_eq!("WHM".parse::<Job>(), Ok(Job::WhiteMage));
    assert_eq!("whm".parse::<Job>(), Err(()));
    for bad in ["pld", "Pld", " PLD", "PLD ", "PLD\n", "", "PLDX", "ZZZ"].iter() {
        assert_eq!(Job::from_str(bad), Err(()), "{:?}", bad);
    }
    for job in ALL_JOBS.iter() {
        assert_eq!(Job::from_str(&job.to_string()), Err(()));
    }
    assert_eq!(Job::from_str("RGE"), Job::from_str("ROG"));
    assert_eq!(Job::from_str("ACN"), Job::from_str("ARN"));
}

#[test]
fn roles_of_all_jobs() {
    let tanks = [
        Job::Paladin,
        Job::Gunbreaker,
        Job::DarkKnight,
        Job::Warrior,
        Job::Marauder,
        Job::Gladiator,
    ];
    let healers = [Job::Conjurer, Job::WhiteMage, Job::Scholar, Job::Astrologian, Job::Sage];
    for job in ALL_JOBS.iter() {
        let expected = if tanks.contains(job) {
            Role::Tank
        } else if healers.contains(job) {
            Role::Healer
        } else {
            Role::DPS
        };
        assert_eq!(job.get_role(), expected, "{:?}", job);
        assert!(!(tanks.contains(job) && healers.contains(job)));
    }
    assert_eq!(Job::Bard.get_role(), Role::DPS);
    assert_eq!(Job::Arcanist.get_role(), Role::DPS);
    assert_eq!(Job::Scholar.get_role(), Role::Healer);
}

fn is_well_formed_shortcode(s: &str) -> bool {
    if !(s.starts_with("<:") && s.ends_with('>')) || s.len() < 5 {
        return false;
    }
    let inner = &s[2..s.len() - 1];
    match inner.rfind(':') {
        None => false,
        Some(k) => {
            let name = &inner[..k];
            let id = &inner[k + 1..];
            !name.is_empty()
                && name
                    .chars()
                    .all(|c| c.is_ascii_lowercase() || c.is_ascii_digit() || c == '~' || c == '_')
                && !id.is_empty()
                && id.chars().all(|c| c.is_ascii_digit())
        }
    }
}

#[test]
fn every_job_glyph_is_a_shortcode() {
    for job in ALL_JOBS.iter() {
        let g = job.get_emoji_string();
        assert!(!g.is_empty());
        assert!(is_well_formed_shortcode(&g), "{}", g);
    }
}

#[test]
fn job_glyph_values() {
    assert_eq!(Job::Paladin.get_emoji_string(), "<:paladin:1313310727796162560>");
    assert_eq!(Job::DarkKnight.get_emoji_string(), "<:darkknight:985322469873303624>");
    assert_eq!(Job::Ninja.get_emoji_string(), "<:ninja~1:1313310663342293012>");
    assert_eq!(Job::Dancer.get_emoji_string(), "<:dancer~1:1313310576616804352>");
    assert_eq!(Job::Archer.get_emoji_string(), "<:archer:1313310565317480458>");
}

#[test]
fn job_glyphs_are_distinct() {
    for (i, a) in ALL_JOBS.iter().enumerate() {
        for b in ALL_JOBS.iter().skip(i + 1) {
            assert_ne!(a.get_emoji_string(), b.get_emoji_string());
        }
    }
}

#[test]
fn job_names() {
    assert_eq!(Job::DarkKnight.name(), "DarkKnight");
    assert_eq!(Job::WhiteMage.to_string(), "WhiteMage");
    assert_eq!(Job::Paladin.to_string(), "Paladin");
    for job in ALL_JOBS.iter() {
        assert_eq!(job.to_string(), format!("{:?}", job));
    }
}

#[test]
fn open_tank_slot_shows_tank_glyph() {
    let s = slot(vec![Job::Paladin, Job::Warrior], false);
    assert_eq!(s.get_emoji_string(), "<:tank:985322488332443668>");
}

#[test]
fn filled_slot_shows_first_job() {
    let s = slot(vec![Job::WhiteMage], true);
    assert_eq!(s.get_emoji_string(), Job::WhiteMage.get_emoji_string());
    let s2 = slot(vec![Job::Bard, Job::Paladin], true);
    assert_eq!(s2.get_emoji_string(), "<:bard:1313310568794427443>");
}

#[test]
fn filled_slot_without_jobs_is_empty() {
    let s = slot(vec![], true);
    assert_eq!(s.get_emoji_string(), "");
}

#[test]
fn open_slot_coverage_combinations() {
    let cases = [
        (vec![Job::Paladin, Job::WhiteMage, Job::Bard], "<:tankhealerdps:985322491398459482>"),
        (vec![Job::Warrior, Job::Sage], "<:tankhealer:985322490375049246>"),
        (vec![Job::Gunbreaker, Job::Reaper], "<:tankdps:985322489422958662>"),
        (vec![Job::Gladiator], "<:tank:985322488332443668>"),
        (vec![Job::Scholar, Job::Machinist], "<:healerdps:985322474923233390>"),
        (vec![Job::Conjurer, Job::Astrologian], "<:healer:985322474134704138>"),
        (vec![Job::Monk, Job::Archer, Job::Arcanist], "<:dps:985322470326280213>"),
        (vec![], ""),
    ];
    let mut seen: Vec<String> = Vec::new();
    for (jobs, expected) in cases.iter() {
        let s = slot(jobs.clone(), false);
        let g = s.get_emoji_string();
        assert_eq!(g, *expected);
        assert_eq!(s.get_emoji_string(), g);
        assert!(!seen.contains(&g));
        seen.push(g);
    }
}

#[test]
fn coverage_glyph_by_flags() {
    assert_eq!(coverage_glyph_string(true, true, true), "<:tankhealerdps:985322491398459482>");
    assert_eq!(coverage_glyph_string(false, true, false), "<:healer:985322474134704138>");
    assert_eq!(coverage_glyph_string(false, false, true), "<:dps:985322470326280213>");
    assert_eq!(coverage_glyph_string(false, false, false), "");
}

#[test]
fn slot_text() {
    assert_eq!(slot(vec![], false).to_string(), "Slot([], false)");
    assert_eq!(
        slot(vec![Job::Paladin, Job::DarkKnight], true).to_string(),
        "Slot([\n    Paladin,\n    DarkKnight,\n], true)"
    );
    let jobs = vec![Job::Sage, Job::BlueMage];
    assert_eq!(
        slot(jobs.clone(), false).to_string(),
        format!("Slot({:#?}, {})", jobs, false)
    );
}

#[test]
fn duty_colors() {
    assert_eq!(get_color_from_duty("The Unending Coil of Bahamut (Ultimate)"), 0xfce100);
    assert_eq!(get_color_from_duty("The Weapon's Refrain (Ultimate)"), 0x008bfc);
    assert_eq!(get_color_from_duty("The Epic of Alexander (Ultimate)"), 0xfcaa00);
    assert_eq!(get_color_from_duty("Dragonsong's Reprise (Ultimate)"), 0xf12916);
    assert_eq!(get_color_from_duty("Some Unlisted Duty"), 0xf0a057);
    assert_eq!(DEFAULT_DUTY_COLOR, 0xf0a057);
}

#[test]
fn duty_color_is_total_and_24_bit() {
    let names = [
        "",
        "the unending coil of bahamut (ultimate)",
        "The Unending Coil of Bahamut (Ultimate) ",
        "The Unending Coil of Bahamut",
        "asdf 1234 \u{e9}\u{1f600}",
    ];
    for name in names.iter() {
        let c = get_color_from_duty(name);
        assert!(c < 0x1000000);
        assert_eq!(c, 0xf0a057);
    }
}

#[test]
fn text_eq_is_exact() {
    assert!(text_eq("", ""));
    assert!(text_eq("PLD", "PLD"));
    assert!(!text_eq("PLD", "PLDX"));
    assert!(!text_eq("PLD", "pld"));
    assert!(text_eq("\u{e9}t\u{e9}", "\u{e9}t\u{e9}"));
    assert!(!text_eq("\u{e9}", "e"));
}
