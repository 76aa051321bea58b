use list_menu::{to_string_vec, Area, Color, Drawing, Key, Menu, MenuView, Row, Style};

const AREA: Area = Area { x: 0, y: 0, width: 20, height: 5 };

const HIGHLIGHT: Style = Style { fg: Some(Color::White), bg: Some(Color::LightBlue) };

const PLAIN: Style = Style { fg: None, bg: None };

#[test]
fn second_of_two_items_is_marked_and_highlighted() {
    let mut menu = Menu::new(to_string_vec(&["a", "b"]));
    menu.select_next_item();
    assert_eq!(menu.current_index(), Some(1));
    let drawing = menu.render(AREA);
    assert_eq!(drawing.rows.len(), 2);
    assert_eq!(drawing.rows[0].text, "a");
    assert_eq!(drawing.rows[0].style, PLAIN);
    assert_eq!(drawing.rows[1].text, "> b");
    assert_eq!(drawing.rows[1].style, HIGHLIGHT);
    assert_eq!(drawing.cursor, Some(1));
}

#[test]
fn new_menu_marks_the_first_row() {
    let menu = Menu::new(to_string_vec(&["a", "b", "c"]));
    let drawing = menu.render(AREA);
    let expected = Drawing {
        area: AREA,
        bordered: true,
        rows: vec![
            Row { text: String::from("> a"), style: HIGHLIGHT },
            Row { text: String::from("b"), style: PLAIN },
            Row { text: String::from("c"), style: PLAIN },
        ],
        cursor: Some(0),
    };
    assert_eq!(drawing, expected);
}

#[test]
fn empty_menu_is_an_empty_bordered_box() {
    let menu = Menu::new(Vec::new());
    let drawing = menu.render(AREA);
    assert!(drawing.bordered);
    assert_eq!(drawing.area, AREA);
    assert!(drawing.rows.is_empty());
    assert_eq!(drawing.cursor, None);
}

#[test]
fn drawing_stands_at_the_given_area() {
    let menu = Menu::new(to_string_vec(&["a"]));
    let area = Area { x: 3, y: 7, width: 40, height: 12 };
    let drawing = menu.render(area);
    assert_eq!(drawing.area, area);
    assert!(drawing.bordered);
    let nothing = Area { x: 0, y: 0, width: 0, height: 0 };
    assert_eq!(menu.render(nothing).area, nothing);
    assert_eq!(menu.render(nothing).rows.len(), 1);
}

#[test]
fn exactly_one_row_is_highlighted() {
    let mut menu = Menu::new(to_string_vec(&["a", "b", "c", "d"]));
    for cur in 0..4usize {
        let drawing = menu.render(AREA);
        assert_eq!(drawing.rows.len(), 4);
        for (i, row) in drawing.rows.iter().enumerate() {
            if i == cur {
                assert_eq!(row.style, HIGHLIGHT);
                assert!(row.text.starts_with("> "));
                assert_eq!(row.text.len(), 3);
            } else {
                assert_eq!(row.style, PLAIN);
                assert_eq!(row.text.len(), 1);
            }
        }
        assert_eq!(drawing.cursor, Some(cur));
        menu.select_next_item();
    }
}

#[test]
fn rows_keep_the_order_and_text_of_the_items() {
    let mut menu = Menu::new(to_string_vec(&["", "> x", "日本語", "tab\there"]));
    menu.select_last_item();
    let drawing = menu.render(AREA);
    assert_eq!(drawing.rows[0].text, "");
    assert_eq!(drawing.rows[1].text, "> x");
    assert_eq!(drawing.rows[2].text, "日本語");
    assert_eq!(drawing.rows[3].text, "> tab\there");
    menu.select_first_item();
    let drawing = menu.render(AREA);
    assert_eq!(drawing.rows[0].text, "> ");
    assert_eq!(drawing.rows[3].text, "tab\there");
}

#[test]
fn rendering_does_not_move_the_cursor() {
    let mut menu = Menu::new(to_string_vec(&["a", "b", "c"]));
    menu.select_next_item();
    let first = menu.render(AREA);
    let second = menu.render(AREA);
    assert_eq!(first, second);
    assert_eq!(menu.current_index(), Some(1));
    assert_eq!(menu.items_count(), 3);
}

#[test]
fn view_renders_its_menu() {
    let mut view = MenuView::new(to_string_vec(&["a", "b"]));
    view.on_event(Key::End);
    let drawing = view.render(AREA);
    assert_eq!(drawing.rows[0], Row { text: String::from("a"), style: PLAIN });
    assert_eq!(drawing.rows[1], Row { text: String::from("> b"), style: HIGHLIGHT });
}

#[test]
fn plain_style_sets_no_color() {
    assert_eq!(Style::plain(), PLAIN);
}

#[test]
fn highlight_of_plain_style_is_white_on_light_blue() {
    assert_eq!(Style::plain().highlight(), HIGHLIGHT);
}

#[test]
fn highlight_keeps_a_background_that_is_set() {
    let style = Style { fg: None, bg: Some(Color::White) };
    assert_eq!(style.highlight(), Style { fg: Some(Color::White), bg: Some(Color::White) });
}

#[test]
fn highlight_replaces_the_foreground() {
    let style = Style { fg: Some(Color::LightBlue), bg: None };
    assert_eq!(style.highlight(), HIGHLIGHT);
    let both = Style { fg: Some(Color::LightBlue), bg: Some(Color::LightBlue) };
    assert_eq!(both.highlight(), Style { fg: Some(Color::White), bg: Some(Color::LightBlue) });
}
