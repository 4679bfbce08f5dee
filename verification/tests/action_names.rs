use vote_board::action::Action;

#[test]
fn actions_have_their_names() {
    assert_eq!(Action::Found.as_str(), "found");
    assert_eq!(Action::NotFound.as_str(), "not_found");
    assert_eq!(Action::SoldOut.as_str(), "sold_out");
}

#[test]
fn actions_have_their_labels() {
    assert_eq!(Action::Found.label_str(), "営業してる");
    assert_eq!(Action::NotFound.label_str(), "いない");
    assert_eq!(Action::SoldOut.label_str(), "売り切れた");
}

#[test]
fn names_parse_back_to_their_actions() {
    for action in [Action::Found, Action::NotFound, Action::SoldOut] {
        assert_eq!(Action::parse(action.as_str()), Some(action));
    }
}

#[test]
fn other_texts_name_no_action() {
    for text in ["", "Found", "found ", " found", "notfound", "sold-out", "refresh_board", "営業してる"] {
        assert_eq!(Action::parse(text), None, "{text:?}");
    }
}
