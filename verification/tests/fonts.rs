use factura::fonts::Liberation;

#[test]
fn families_have_their_names() {
    assert_eq!(Liberation::Mono.value(), "LiberationMono");
    assert_eq!(Liberation::Sans.value(), "LiberationSans");
    assert_eq!(Liberation::Serif.value(), "LiberationSerif");
}

#[test]
fn variations_name_the_four_faces_in_order() {
    assert_eq!(
        Liberation::Mono.variations(),
        [
            String::from("LiberationMono-Regular.ttf"),
            String::from("LiberationMono-Bold.ttf"),
            String::from("LiberationMono-Italic.ttf"),
            String::from("LiberationMono-BoldItalic.ttf"),
        ]
    );
    assert_eq!(
        Liberation::Sans.variations(),
        [
            String::from("LiberationSans-Regular.ttf"),
            String::from("LiberationSans-Bold.ttf"),
            String::from("LiberationSans-Italic.ttf"),
            String::from("LiberationSans-BoldItalic.ttf"),
        ]
    );
    assert_eq!(
        Liberation::Serif.variations(),
        [
            String::from("LiberationSerif-Regular.ttf"),
            String::from("LiberationSerif-Bold.ttf"),
            String::from("LiberationSerif-Italic.ttf"),
            String::from("LiberationSerif-BoldItalic.ttf"),
        ]
    );
}
