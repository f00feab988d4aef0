use workbook::borrowing;
use workbook::enums::{years_since_OS_release, OperatingSystems};
use workbook::functions::{alphabets, contains_char, is_even, square_value};
use workbook::generics::{identity, make_tuple, make_tuple_2, make_tuple_3, ChatMessage, Treasure};
use workbook::outcomes::{is_item_in_stock, operation, MyOption, Restaurant};
use workbook::ownership::{add_flour, bake_cake, eat_meal};
use workbook::structs::{Computer, EminemSong};
use workbook::text::trim_text;
use workbook::workout::{CardioTool, GymWorkout};

#[test]
fn alphabets_reports_a_and_z() {
    assert_eq!(alphabets("aardvark"), (true, false));
    assert_eq!(alphabets("zoology"), (false, true));
    assert_eq!(alphabets("zebra"), (true, true));
    assert_eq!(alphabets(""), (false, false));
}

#[test]
fn contains_char_finds_only_present_characters() {
    assert!(contains_char("hello", 'h'));
    assert!(contains_char("hello", 'o'));
    assert!(!contains_char("hello", 'z'));
    assert!(!contains_char("", 'a'));
}

#[test]
fn is_even_on_odd_and_even_values() {
    assert!(!is_even(9));
    assert!(is_even(8));
    assert!(is_even(0));
    assert!(is_even(-4));
    assert!(!is_even(-3));
}

#[test]
fn square_value_squares() {
    assert_eq!(square_value(3), 9);
    assert_eq!(square_value(-12), 144);
    assert_eq!(square_value(0), 0);
    assert_eq!(square_value(46340), 46340 * 46340);
}

#[test]
fn eat_meal_clears_the_text() {
    assert_eq!(eat_meal(String::from("Salmon")), "");
}

#[test]
fn bake_cake_returns_chocolate_mousse() {
    assert_eq!(bake_cake(), "Chocolate Mousse");
}

#[test]
fn add_flour_appends_the_step() {
    let meal = add_flour(String::new());
    assert_eq!(meal, "Add Flour\n");
    let meal = borrowing::add_flour(String::from("Start"));
    assert_eq!(meal, "Start\nAdd Flour");
}

#[test]
fn trip_collects_all_cities_in_order() {
    let mut trip = borrowing::start_trip();
    borrowing::visit_philadelphia(&mut trip);
    borrowing::visit_new_york(&mut trip);
    borrowing::visit_boston(&mut trip);
    assert_eq!(trip, "The plan is  and Philadelphia and New York and Boston");
}

#[test]
fn add_more_flour_in_place() {
    let mut meal = String::from("Mix");
    borrowing::add_flour_2(&mut meal);
    assert_eq!(meal, "Mix\nAdd More Flour");
}

#[test]
fn computer_builder_chains_updates() {
    let mut computer_instance = Computer::new(String::from("i3"), 20, 500);
    computer_instance
        .update_cpu(String::from("M4"))
        .update_memory(32)
        .upgrade_capacity(1000);
    assert_eq!(computer_instance.cpu, "M4");
    assert_eq!(computer_instance.memory, 32);
    assert_eq!(computer_instance.hard_drive_capacity, 1000);
}

#[test]
fn song_years_since_release() {
    let song = EminemSong::new(String::from("Not Afraid"), 2010, 240);
    assert_eq!(song.calc_years_since_release(), 15);
    let song = EminemSong::new(String::from("Without Me"), 2003, 180);
    assert_eq!(song.calc_years_since_release(), 22);
}

#[test]
fn song_duration_comparison() {
    let without_me = EminemSong::new(String::from("Without Me"), 2003, 180);
    let lose_yourself = EminemSong::new(String::from("Lose Yourself"), 2003, 179);
    assert!(without_me.is_longer_than(&lose_yourself));
    assert!(!lose_yourself.is_longer_than(&without_me));
    assert!(!without_me.is_longer_than(&without_me));
}

#[test]
fn clean_treasure_trims_blanks() {
    let mut treasure_instance = Treasure {
        captain: String::from("Blackbeard"),
        treasure: String::from("     The One Piece"),
    };
    treasure_instance.clean_treasure();
    assert_eq!(treasure_instance.treasure, "The One Piece");
    assert_eq!(treasure_instance.captain, "Blackbeard");

    let mut unusual_blanks = Treasure {
        captain: String::from("Blackbeard"),
        treasure: String::from("\u{000B}The One Piece\u{00A0}"),
    };
    unusual_blanks.clean_treasure();
    assert_eq!(unusual_blanks.treasure, "The One Piece");

    unusual_blanks.clean_treasure();
    assert_eq!(unusual_blanks.treasure, "The One Piece");
}

#[test]
fn trim_text_edge_cases() {
    assert_eq!(trim_text(""), "");
    assert_eq!(trim_text("   \t\n\r  "), "");
    assert_eq!(trim_text("solid"), "solid");
    assert_eq!(trim_text("\t mixed middle  kept \n"), "mixed middle  kept");
    assert_eq!(trim_text("\u{000B}x"), "x");
    assert_eq!(trim_text("\u{000C}\u{0085}\u{00A0}y\u{2028}\u{2029}"), "y");
    assert_eq!(trim_text("\u{1680}\u{2000}\u{200A}z\u{202F}\u{205F}\u{3000}"), "z");
}

#[test]
fn trim_text_agrees_with_std_trim() {
    let samples = [
        "",
        "plain",
        "  spaced out  ",
        "\u{000B}\u{000C}inner\u{0085}",
        "\u{00A0}\u{1680}\u{2003}both ends\u{2028}\u{202F}\u{3000}",
        "\u{200B}zero width space is not white space\u{200B}",
        "\tkeep \u{00A0} inside\r\n",
    ];
    for sample in samples {
        assert_eq!(trim_text(sample), sample.trim());
    }
}

#[test]
fn set_bounty_overwrites_the_amount() {
    let mut treasure_instance_2 = Treasure { captain: String::from("Luffy"), treasure: 56 };
    treasure_instance_2.set_bounty(100000);
    assert_eq!(treasure_instance_2.treasure, 100000);
}

#[test]
fn set_jewels_replaces_the_three_jewels() {
    let mut treasure_instance_3 = Treasure {
        captain: String::from("Luffy"),
        treasure: ["Gold", "Silver", "Platinum"],
    };
    treasure_instance_3.set_jewels();
    assert_eq!(treasure_instance_3.treasure, ["Diamond", "Ruby", "Sapphire"]);
}

#[test]
fn change_captain_keeps_the_treasure() {
    let mut treasure_instance = Treasure { captain: String::from("Blackbeard"), treasure: 7 };
    treasure_instance.change_captain(String::from("Monkey D. Luffy"));
    assert_eq!(treasure_instance.captain, "Monkey D. Luffy");
    assert_eq!(treasure_instance.treasure, 7);
}

#[test]
fn get_treasure_returns_ownership() {
    let treasure_instance = Treasure {
        captain: String::from("Blackbeard"),
        treasure: String::from("The One Piece"),
    };
    assert_eq!(treasure_instance.get_treasure(), "The One Piece");
}

#[test]
fn retrieve_time_reads_the_timestamp() {
    let message = ChatMessage { content: "Salaam Bro", time: String::from("2:39 AM") };
    assert_eq!(message.retrieve_time().as_str(), "2:39 AM");
}

#[test]
fn tuples_and_identity() {
    assert_eq!(make_tuple("Omar", 13), ("Omar", 13));
    assert_eq!(make_tuple_2("Omar", "Abu-Hijleh"), ("Omar", "Abu-Hijleh"));
    assert_eq!(make_tuple_3("Omar", 18), ("Omar", 18));
    assert_eq!(identity(5), 5);
    assert_eq!(identity(true), true);
    assert_eq!(identity(String::from("Turkey")), "Turkey");
}

#[test]
fn chef_special_depends_on_bookings_and_hygiene() {
    let infested = Restaurant { reservations: 11, has_mice_infestation: true };
    assert!(infested.chef_special().is_none());

    let quiet = Restaurant { reservations: 11, has_mice_infestation: false };
    assert_eq!(quiet.chef_special().unwrap().name, "Uno Sashimi");

    let busy = Restaurant { reservations: 15, has_mice_infestation: false };
    assert_eq!(busy.chef_special().unwrap().name, "Strip Steak");
}

#[test]
fn deliver_burger_reports_each_failure() {
    let infested = Restaurant { reservations: 11, has_mice_infestation: true };
    assert_eq!(
        infested.deliver_burger("123 Elm St").unwrap_err(),
        "Sorry, we have a mice problem"
    );

    let clean = Restaurant { reservations: 15, has_mice_infestation: false };
    assert_eq!(clean.deliver_burger("").unwrap_err(), "No Delivery Address Specified");
    assert_eq!(clean.deliver_burger("123 Elm St").unwrap().name, "Burger");
}

#[test]
fn operation_reports_success_and_failure() {
    assert_eq!(operation(true).unwrap(), "Operation was a great success!");
    assert_eq!(operation(false).unwrap_err(), "Operation failed.");
}

#[test]
fn my_option_unwrap_and_unwrap_or() {
    let my_value = MyOption::Present(42);
    assert_eq!(my_value.unwrap(), 42);
    assert_eq!(my_value.unwrap_or(7), 42);
    let my_no_value = MyOption::Missing;
    assert_eq!(my_no_value.unwrap_or(7), 7);
}

#[test]
fn stock_lookup_has_three_outcomes() {
    assert_eq!(is_item_in_stock(true, true), Some(true));
    assert_eq!(is_item_in_stock(true, false), Some(false));
    assert_eq!(is_item_in_stock(false, false), None);
    assert_eq!(is_item_in_stock(false, true), None);
}

#[test]
fn os_release_years() {
    assert_eq!(years_since_OS_release(OperatingSystems::Windows), 39);
    assert_eq!(
        years_since_OS_release(OperatingSystems::Linux {
            distribution: String::from("Fedora")
        }),
        34
    );
    assert_eq!(
        years_since_OS_release(OperatingSystems::MacOS(String::from("Sequoia"))),
        23
    );
}

#[test]
fn gym_workout_composition() {
    let workout = GymWorkout::new();
    assert_eq!(workout.cardio.day, "Monday");
    assert!(matches!(workout.cardio.tool, CardioTool::Treadmill));
    assert_eq!(workout.cardio.duration_mins, 30);
    assert_eq!(workout.weightlifting.exercise_name, "Bench");
    assert_eq!(workout.weightlifting.reps, 10);
}
