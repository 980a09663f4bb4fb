use taintoooor::basics::{some_loopy_magic, some_random_function};
use taintoooor::generics::{largest_element_in_vector, Coordinate, Point};
use taintoooor::guessing::{evaluate_guess, GuessOutcome};
use taintoooor::rectangles::{
    area, better_area_function, better_yet_area_function, build_user, Rectangle,
};
use taintoooor::restaurant::{eat_at_restaurant, eat_eat, Appetizer, Breakfast};
use taintoooor::summaries::{returns_summarizable, NewsArticle, Summary, Tweet};
use taintoooor::text::{
    append, calculate_length, calculate_length_via_reference,
    create_mapping_of_frequency_of_words, isolating_characters_from_string, longest,
    longest_always_return_x, lonest_expt,
};

#[test]
fn adding_and_looping_agree() {
    assert_eq!(some_random_function(2, -5), -3);
    assert_eq!(some_loopy_magic(-10, 10), -10);
    assert_eq!(some_loopy_magic(0, 5), 10);
    assert_eq!(some_loopy_magic(5, 5), 0);
}

#[test]
fn largest_element_scans_any_ordered_type() {
    assert_eq!(largest_element_in_vector(vec![102, 34, 6000, 89, 54, 2, 43, 8]), 6000);
    assert_eq!(largest_element_in_vector(vec![34, 50, 25, 100, 65]), 100);
    assert_eq!(largest_element_in_vector(vec!['y', 'm', 'a', 'q']), 'y');
}

#[test]
fn coordinates_expose_their_first_component() {
    let p = Coordinate { x: 5, y: 10 };
    assert_eq!(*p.x(), 5);
    let q = Point { x: 1u8, y: "two" };
    assert_eq!(q.x, 1);
    assert_eq!(q.y, "two");
}

#[test]
fn guesses_compare_against_the_secret() {
    assert_eq!(evaluate_guess(3, 7), GuessOutcome::TooSmall);
    assert_eq!(evaluate_guess(9, 7), GuessOutcome::TooBig);
    assert_eq!(evaluate_guess(7, 7), GuessOutcome::Win);
}

#[test]
fn rectangle_areas_agree() {
    let r = Rectangle { width: 30, height: 50 };
    assert_eq!(r.rectangle_impl_area(), 1500);
    assert_eq!(area(30, 50), 1500);
    assert_eq!(better_area_function((30, 50)), 1500);
    assert_eq!(better_yet_area_function(&r), 1500);
    assert_eq!(Rectangle::square(25), Rectangle { width: 25, height: 25 });
    assert!(r.can_hold(&Rectangle { width: 20, height: 40 }));
    assert!(!r.can_hold(&Rectangle { width: 40, height: 60 }));
}

#[test]
fn built_users_start_active() {
    let u = build_user("captain@blackbulls.com".to_string(), "Yami Sukehiro".to_string());
    assert_eq!(u.email, "captain@blackbulls.com");
    assert_eq!(u.username, "Yami Sukehiro");
    assert!(u.active);
    assert_eq!(u.sign_in_count, 1);
}

#[test]
fn breakfast_and_orders() {
    let meal = Breakfast::summer("Rye");
    assert_eq!(meal.toast, "Rye");
    let order = Appetizer::Soup;
    assert_ne!(order, Appetizer::Salad);
    eat_at_restaurant();
    eat_eat();
}

#[test]
fn summaries_name_their_authors() {
    let tweet = Tweet {
        username: "saxenism".to_string(),
        content: "hello".to_string(),
        reply: false,
        retweet: false,
    };
    assert_eq!(tweet.summarize_author(), "@saxenism");
    assert_eq!(tweet.summarize(), "saxenism: hello");
    let article = NewsArticle {
        author: "John Doe".to_string(),
        headline: "The Sky is Falling!".to_string(),
        content: "It is not.".to_string(),
    };
    assert_eq!(article.summarize_author(), "John Doe");
    assert_eq!(article.summarize(), "Read more from John Doe...");
    let canned = returns_summarizable();
    assert_eq!(canned.summarize(), "asd: asdas");
}

#[test]
fn longer_and_length_helpers() {
    assert_eq!(longest("abcd", "xyz"), "abcd");
    assert_eq!(longest("ab", "xyz"), "xyz");
    assert_eq!(longest_always_return_x("abcd", "efgh"), "abcd");
    assert_eq!(lonest_expt("a", "b"), "really really long string");
    assert_eq!(calculate_length("saxenism".to_string()), 8);
    assert_eq!(calculate_length_via_reference(&"Hello".to_string()), 5);
}

#[test]
fn append_builds_the_three_strings() {
    let (grown, summed, formatted) = append();
    assert_eq!(grown, "foobar!");
    assert_eq!(summed, "Hello, World!");
    assert_eq!(formatted, "Hello, World!");
}

#[test]
fn strings_break_into_bytes_characters_and_graphemes() {
    let (bytes, chars, graphemes) = isolating_characters_from_string("ab");
    assert_eq!(bytes, vec![97, 98]);
    assert_eq!(chars, vec!['a', 'b']);
    assert_eq!(graphemes, vec!["a".to_string(), "b".to_string()]);
    // A grapheme cluster can span several characters.
    let (_, chars2, graphemes2) = isolating_characters_from_string("e\u{301}f");
    assert_eq!(chars2.len(), 3);
    assert_eq!(graphemes2, vec!["e\u{301}".to_string(), "f".to_string()]);
}

#[test]
fn word_frequencies_count_every_word() {
    let words = vec![
        "hello".to_string(),
        "world".to_string(),
        "wonderful".to_string(),
        "world".to_string(),
    ];
    let freq = create_mapping_of_frequency_of_words(&words);
    assert_eq!(freq.len(), 3);
    assert_eq!(freq[0], ("hello".to_string(), 1));
    assert_eq!(freq[1], ("world".to_string(), 2));
    assert_eq!(freq[2], ("wonderful".to_string(), 1));
}
