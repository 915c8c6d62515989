use feather::hlist::{HCons, HList, Plucker, PluckerMut, PluckerRef, Tuple};
use feather::text::{Text, TextComponent, TextRoot, TextValue};

fn plain(text: &Text) -> Option<&str> {
    match text {
        Text::String(s) => Some(s.as_str()),
        _ => None,
    }
}

#[test]
fn strings_add_up_to_a_list() {
    let text = Text::of("hello".to_owned())
        .add(Text::of(" ".to_owned()))
        .add(Text::of("world!".to_owned()));
    match text {
        Text::Array(items) => {
            let items: Vec<Option<&str>> = items.iter().map(plain).collect();
            assert_eq!(items, vec![Some("hello"), Some(" "), Some("world!")]);
        }
        _ => panic!("not a list"),
    }
}

#[test]
fn a_component_is_led_by_an_empty_string() {
    let hello = Text::keybind("key.jump".to_owned());
    match hello.add(Text::of("!".to_owned())) {
        Text::Array(items) => {
            assert_eq!(items.len(), 3);
            assert_eq!(plain(&items[0]), Some(""));
            assert!(matches!(&items[1], Text::Component(c)
                if matches!(&c.value, TextValue::Keybind { keybind } if keybind == "key.jump")));
            assert_eq!(plain(&items[2]), Some("!"));
        }
        _ => panic!("not a list"),
    }
}

#[test]
fn a_root_is_never_a_plain_string() {
    match TextRoot::from_text(Text::of("hello".to_owned())).into_text() {
        Text::Component(c) => {
            assert!(matches!(&c.value, TextValue::Text { text } if text == "hello"))
        }
        _ => panic!("not a component"),
    }
    assert!(matches!(
        TextRoot::from_text(Text::empty().add(Text::empty())).into_text(),
        Text::Array(items) if items.len() == 2
    ));
    let score = Text::score("Steve".to_owned(), "kills".to_owned(), None);
    assert!(matches!(TextRoot::from_text(score).into_text(), Text::Component(_)));
}

#[test]
fn translated_text_keeps_its_arguments() {
    let join = Text::translate_with(
        "multiplayer.player.joined".to_owned(),
        vec![Text::of("The_Defman".to_owned())],
    );
    match join {
        Text::Component(c) => match &c.value {
            TextValue::Translate { translate, with } => {
                assert_eq!(translate, "multiplayer.player.joined");
                assert_eq!(with.len(), 1);
                assert_eq!(plain(&with[0]), Some("The_Defman"));
            }
            _ => panic!("not a translation"),
        },
        _ => panic!("not a component"),
    }
    let shown = TextComponent::from_text(Text::of("x".to_owned()));
    assert!(matches!(shown.value, TextValue::Text { text } if text == "x"));
}

#[test]
fn lists_and_tuples() {
    let list = (1u8, "two", 3.5f64).hlist();
    assert_eq!(list.head, 1);
    assert_eq!(list.tail.head, "two");
    assert_eq!(list.tail.tail.head, 3.5);
    let (a, b, c) = list.flatten();
    assert_eq!((a, b, c), (1, "two", 3.5));
    assert_eq!(().hlist(), ());
    let single = HCons { head: 7i64, tail: () };
    assert_eq!(single.flatten(), (7,));
}

#[test]
fn plucking_by_type() {
    let list = (1u8, "two", true).hlist();
    let (word, rest): (&str, _) = list.pluck();
    assert_eq!(word, "two");
    let (flag, rest): (bool, _) = rest.pluck();
    assert!(flag);
    let (number, rest): (u8, _) = rest.pluck();
    assert_eq!(number, 1);
    assert_eq!(rest, ());

    let a = 5u32;
    let b = "x".to_owned();
    let refs = (&a, &b).hlist();
    let text: &String = PluckerRef::<String, _>::pluck(&refs);
    assert_eq!(text, "x");
    let number: &u32 = PluckerRef::<u32, _>::pluck(&refs);
    assert_eq!(*number, 5);
}

#[test]
fn plucking_for_writing() {
    let mut number = 5u32;
    let mut word = "x".to_owned();
    {
        let mut refs = (&mut number, &mut word).hlist();
        let first: &mut u32 = PluckerMut::<u32, _>::pluck(&mut refs);
        assert_eq!(*first, 5);
        *first = 9;
        let second: &mut String = PluckerMut::<String, _>::pluck(&mut refs);
        assert_eq!(second, "x");
        second.push('y');
        assert_eq!(*refs.head, 9);
        assert_eq!(refs.tail.head.as_str(), "xy");
    }
    assert_eq!(number, 9);
    assert_eq!(word, "xy");
}
