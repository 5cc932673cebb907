use ornery_bot::commands::webtoon::{
    already_exists, check_new_webtoon, episode_line, episodes_from, listing, listing_description,
    listing_line, page_title, random_remark, read_page, remark_or_nothing, remarks, removal_reply,
    unknown_webtoon_hint, Episode, BAD_ID, BAD_URL, MANY_DELETED, NONE_ADDED, NOTHING_DELETED,
    ONE_DELETED,
};
use ornery_bot::page::FoundItem;

const URL: &str = "https://www.webtoons.com/en/action/weakhero/list?title_no=1726";

#[test]
fn a_short_name_and_a_site_address_may_be_added() {
    assert!(check_new_webtoon("weakhero", URL).is_ok());
    assert!(check_new_webtoon("weak-hero_2", "http://webtoons.com/").is_ok());
    assert!(check_new_webtoon("héro", "https://m.webtoons.com/x").is_ok());
}

#[test]
fn a_name_with_other_characters_is_refused() {
    for id in ["weak hero", "", "a!", "a/b", "a\n"] {
        match check_new_webtoon(id, URL) {
            Err(error) => assert_eq!(error.0, BAD_ID),
            Ok(()) => panic!("{:?} was accepted", id),
        }
    }
    match check_new_webtoon("weak hero", "nowhere") {
        Err(error) => assert_eq!(error.0, BAD_ID),
        Ok(()) => panic!("accepted"),
    }
}

#[test]
fn an_address_elsewhere_is_refused() {
    for url in ["", "nowhere", "ftp://webtoons.com/", "https://example.com/", "https://webtoons.com", " https://webtoons.com/"] {
        match check_new_webtoon("weakhero", url) {
            Err(error) => assert_eq!(error.0, BAD_URL),
            Ok(()) => panic!("{:?} was accepted", url),
        }
    }
}

#[test]
fn replies_name_the_short_name() {
    assert_eq!(
        already_exists("weakhero"),
        "A Webtoon with the given ID already exists! Try it: `:webtoon check weakhero`"
    );
    assert_eq!(
        unknown_webtoon_hint("weakhero"),
        "Hint: Request the mods to do `:webtoon add weakhero <url>` first."
    );
    assert_eq!(listing_line("weakhero", "http://x"), "[`weakhero`](http://x)");
}

#[test]
fn removal_reply_goes_by_the_number_deleted() {
    assert_eq!(removal_reply(0), NOTHING_DELETED);
    assert_eq!(removal_reply(1), ONE_DELETED);
    assert_eq!(removal_reply(2), MANY_DELETED);
    assert_eq!(removal_reply(-1), MANY_DELETED);
    assert_eq!(removal_reply(0), "I didn't delete anything since there was nothing to delete.");
    assert_eq!(removal_reply(1), "The Webtoon has been deleted. 😢");
    assert_eq!(
        removal_reply(7),
        "Strangely, I deleted more than one Webtoon with that ID. ¯\\_(ツ)_/¯"
    );
}

const PAGE: &str = r#"<html><head><title>t</title></head><body>
<div class="info"><h1 class="subj">Weak Hero</h1><h1 class="other">Not this</h1></div>
<ul id="_listUl" class="detail_lst">
<li><a href="https://x/ep3"><span class="thmb"><img src="https://img/3.jpg" alt="3"></span>
<span class="subj"><span>Ep. 3</span><em class="tx_up">UP</em></span>
<span class="date">Jan 3</span></a></li>
<li><a href="https://x/ep2"><span class="thmb"><img src="https://img/2.jpg"></span>
<span class="subj"><span>Ep. 2</span></span>
<span class="date" href="https://x/date2">Jan 2</span></a></li>
<li><a href="https://x/ep1"><span class="subj">bare</span></a></li>
</ul></body></html>"#;

#[test]
fn page_tells_title_picture_and_episodes() {
    let page = read_page(PAGE, URL);
    assert_eq!(page.title, "Weak Hero");
    assert_eq!(page.first_image, Some("https://img/3.jpg".to_string()));
    assert_eq!(page.episodes.len(), 3);
    assert_eq!(page.episodes[0].name, "Ep. 3");
    assert_eq!(page.episodes[0].date, "Jan 3");
    assert_eq!(page.episodes[0].link, URL);
    assert!(page.episodes[0].up);
    assert_eq!(page.episodes[1].name, "Ep. 2");
    assert_eq!(page.episodes[1].date, "Jan 2");
    assert_eq!(page.episodes[1].link, "https://x/date2");
    assert!(!page.episodes[1].up);
    assert_eq!(page.episodes[2].name, "[Couldn't get episode name]");
    assert_eq!(page.episodes[2].date, "[Couldn't get episode date]");
    assert_eq!(page.episodes[2].link, URL);
    assert!(!page.episodes[2].up);
}

#[test]
fn page_without_anything_tells_nothing() {
    let page = read_page("<html><body><p>nothing</p></body></html>", URL);
    assert_eq!(page.title, "[Couldn't get title]");
    assert_eq!(page.first_image, None);
    assert!(page.episodes.is_empty());
    let empty = read_page("", URL);
    assert_eq!(empty.title, "[Couldn't get title]");
    assert!(empty.episodes.is_empty());
}

#[test]
fn page_shows_five_episodes_at_most() {
    let mut html = String::from("<ul class=\"detail_lst\">");
    for at in 0..8 {
        html.push_str(&format!(
            "<li><span class=\"subj\"><span>Ep. {}</span></span><span class=\"date\">d{}</span></li>",
            at, at
        ));
    }
    html.push_str("</ul>");
    let page = read_page(&html, URL);
    assert_eq!(page.episodes.len(), 5);
    for at in 0..5 {
        assert_eq!(page.episodes[at].name, format!("Ep. {}", at));
        assert_eq!(page.episodes[at].date, format!("d{}", at));
    }
}

#[test]
fn episodes_are_filled_in_from_what_was_found() {
    let found = vec![
        FoundItem {
            name: Some("n".to_string()),
            date: Some("d".to_string()),
            link: Some("l".to_string()),
            marked: true,
        },
        FoundItem { name: None, date: None, link: None, marked: false },
    ];
    let episodes = episodes_from(&found, "u");
    assert_eq!(episodes.len(), 2);
    assert_eq!(
        (episodes[0].name.as_str(), episodes[0].date.as_str(), episodes[0].link.as_str(), episodes[0].up),
        ("n", "d", "l", true)
    );
    assert_eq!(
        (episodes[1].name.as_str(), episodes[1].date.as_str(), episodes[1].link.as_str(), episodes[1].up),
        ("[Couldn't get episode name]", "[Couldn't get episode date]", "u", false)
    );
    assert!(episodes_from(&vec![], "u").is_empty());
    assert_eq!(page_title(None), "[Couldn't get title]");
    assert_eq!(page_title(Some("T".to_string())), "T");
}

#[test]
fn episode_line_links_the_date_and_marks_what_is_new() {
    let mut episode = Episode {
        name: "Ep. 3".to_string(),
        date: "Jan 3".to_string(),
        link: "https://x/ep3".to_string(),
        up: true,
    };
    assert_eq!(episode_line(&episode), "[Jan 3](https://x/ep3)  **UP**");
    episode.up = false;
    assert_eq!(episode_line(&episode), "[Jan 3](https://x/ep3) ");
}

#[test]
fn a_remark_is_one_of_three() {
    let all = remarks();
    assert_eq!(
        all,
        vec![
            "I already read this...",
            "The last episode was pretty epic; you should read it!",
            "I approve.",
        ]
    );
    for _ in 0..50 {
        let remark = random_remark();
        assert!(all.contains(&remark.as_str()));
    }
    assert_eq!(remark_or_nothing(None), "");
    assert_eq!(remark_or_nothing(Some(&"I approve.")), "I approve.");
}

#[test]
fn list_of_nothing_says_so() {
    assert_eq!(listing(&vec![]), Some(NONE_ADDED.to_string()));
    assert_eq!(listing_description(""), NONE_ADDED);
}

#[test]
fn short_list_is_shown_in_full() {
    let lines = vec![listing_line("a", "http://a"), listing_line("b", "http://b")];
    assert_eq!(listing(&lines), Some("[`a`](http://a)\n[`b`](http://b)".to_string()));
    let exactly = "x".repeat(2000);
    assert_eq!(listing_description(&exactly), exactly);
}

#[test]
fn long_list_is_cut_after_1994_bytes() {
    let long = "x".repeat(2001);
    assert_eq!(listing_description(&long), format!("{}\n[...]", "x".repeat(1994)));
    let lines = vec!["y".repeat(1500), "z".repeat(1500)];
    let shown = listing(&lines).unwrap();
    assert_eq!(shown, format!("{}\n{}\n[...]", "y".repeat(1500), "z".repeat(493)));
    assert_eq!(shown.len(), 2000);
}

#[test]
fn long_list_that_would_be_cut_inside_a_character_is_not_shown() {
    let lines = vec![format!("{}é{}", "x".repeat(1993), "y".repeat(100))];
    assert_eq!(listing(&lines), None);
    let lines = vec![format!("{}é{}", "x".repeat(1992), "y".repeat(100))];
    assert_eq!(listing(&lines), Some(format!("{}é\n[...]", "x".repeat(1992))));
}
