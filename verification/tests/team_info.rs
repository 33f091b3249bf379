use underbots::perception::game_state::{
    color_by_name, is_friendly_team_blue, is_friendly_team_defending_positive_side, DefendingSide,
    FriendlyColor, PerceptionConfig, Referee, RefereeTeam, TeamInfo,
};

fn referee(blue: &str, yellow: &str, blue_on_positive: Option<bool>) -> Referee {
    Referee {
        command: 0,
        blue: RefereeTeam { name: blue.to_string(), score: 3, goalkeeper: 5 },
        yellow: RefereeTeam { name: yellow.to_string(), score: 1, goalkeeper: 7 },
        blue_team_on_positive_half: blue_on_positive,
    }
}

fn config(color: FriendlyColor, side: DefendingSide, name: &str) -> PerceptionConfig {
    PerceptionConfig { friendly_color: color, defending_side: side, team_name: name.to_string() }
}

#[test]
fn color_by_name_prefers_blue() {
    let team = "a".to_string();
    let other = "b".to_string();
    assert_eq!(color_by_name(&team, &team, &other), Some(true));
    assert_eq!(color_by_name(&team, &other, &team), Some(false));
    assert_eq!(color_by_name(&team, &team, &team), Some(true));
    assert_eq!(color_by_name(&team, &other, &other), None);
    assert_eq!(color_by_name(&team, &"A".to_string(), &other), None);
}

#[test]
fn fixed_colour_needs_no_referee() {
    let blue = config(FriendlyColor::Blue, DefendingSide::Positive, "x");
    let yellow = config(FriendlyColor::Yellow, DefendingSide::Positive, "x");
    assert_eq!(is_friendly_team_blue(None, &blue), Some(true));
    assert_eq!(is_friendly_team_blue(None, &yellow), Some(false));
    let msg = referee("x", "y", None);
    assert_eq!(is_friendly_team_blue(Some(&msg), &yellow), Some(false));
}

#[test]
fn referee_colour_is_found_by_name_whatever_the_case() {
    let cfg = config(FriendlyColor::AutorefColor, DefendingSide::Positive, "UnderBots");
    assert_eq!(is_friendly_team_blue(Some(&referee("UNDERBOTS", "Others", None)), &cfg), Some(true));
    assert_eq!(is_friendly_team_blue(Some(&referee("Others", "underbots", None)), &cfg), Some(false));
    assert_eq!(is_friendly_team_blue(Some(&referee("Others", "Unknown", None)), &cfg), None);
    assert_eq!(is_friendly_team_blue(Some(&referee("underbots ", "Unknown", None)), &cfg), None);
    assert_eq!(is_friendly_team_blue(None, &cfg), None);
}

#[test]
fn side_by_setting_or_by_referee() {
    let negative = config(FriendlyColor::Blue, DefendingSide::Negative, "x");
    let positive = config(FriendlyColor::Blue, DefendingSide::Positive, "x");
    let auto = config(FriendlyColor::Blue, DefendingSide::AutorefSide, "x");
    assert_eq!(is_friendly_team_defending_positive_side(None, &negative, true), Some(false));
    assert_eq!(is_friendly_team_defending_positive_side(None, &positive, false), Some(true));
    assert_eq!(is_friendly_team_defending_positive_side(None, &auto, true), None);
    let unknown = referee("x", "y", None);
    assert_eq!(is_friendly_team_defending_positive_side(Some(&unknown), &auto, true), None);
    let blue_positive = referee("x", "y", Some(true));
    assert_eq!(is_friendly_team_defending_positive_side(Some(&blue_positive), &auto, true), Some(true));
    assert_eq!(is_friendly_team_defending_positive_side(Some(&blue_positive), &auto, false), Some(false));
    let blue_negative = referee("x", "y", Some(false));
    assert_eq!(is_friendly_team_defending_positive_side(Some(&blue_negative), &auto, true), Some(false));
    assert_eq!(is_friendly_team_defending_positive_side(Some(&blue_negative), &auto, false), Some(true));
}

#[test]
fn team_info_of_both_teams() {
    let cfg = config(FriendlyColor::AutorefColor, DefendingSide::AutorefSide, "us");
    let msg = referee("Them", "US", Some(true));
    let friendly = TeamInfo::from_referee(Some(&msg), &cfg, true);
    assert_eq!(
        friendly,
        Some(TeamInfo { is_blue: false, score: 1, goalie_id: 7, defending_positive_side: false })
    );
    let enemy = TeamInfo::from_referee(Some(&msg), &cfg, false);
    assert_eq!(
        enemy,
        Some(TeamInfo { is_blue: true, score: 3, goalie_id: 5, defending_positive_side: true })
    );
}

#[test]
fn team_info_is_unknown_without_a_message() {
    let fixed = config(FriendlyColor::Blue, DefendingSide::Positive, "us");
    assert_eq!(TeamInfo::from_referee(None, &fixed, true), None);
    assert_eq!(TeamInfo::from_referee(None, &fixed, false), None);
    let msg = referee("a", "b", None);
    assert_eq!(
        TeamInfo::from_referee(Some(&msg), &fixed, true),
        Some(TeamInfo { is_blue: true, score: 3, goalie_id: 5, defending_positive_side: true })
    );
}

#[test]
fn team_info_is_unknown_when_colour_or_side_is() {
    let by_name = config(FriendlyColor::AutorefColor, DefendingSide::Positive, "us");
    assert_eq!(TeamInfo::from_referee(Some(&referee("a", "b", Some(true))), &by_name, true), None);
    let by_side = config(FriendlyColor::Yellow, DefendingSide::AutorefSide, "us");
    assert_eq!(TeamInfo::from_referee(Some(&referee("a", "b", None)), &by_side, true), None);
}
