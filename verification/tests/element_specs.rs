use easel::sugar::Tag;

const DIV: Tag = Tag("div");
const SPAN: Tag = Tag("span");

#[test]
fn tag_builders_keep_their_pieces() {
    let spec = DIV.class("easel-controls").attr("title", "Play/Pause");
    assert_eq!(spec.0.1, "easel-controls");
    assert_eq!(spec.0.0.0, "div");
    assert_eq!(spec.1, "title");
    assert_eq!(spec.2, "Play/Pause");
}

#[test]
fn nested_children_nest() {
    let spec = DIV.class("easel-status").child2(SPAN.text("caption"), SPAN.html("&nbsp;"));
    assert_eq!(spec.0.1, "easel-status");
    assert_eq!(spec.1.1, "caption");
    assert_eq!(spec.2.1, "&nbsp;");
    let three = DIV.child3(SPAN.text("a"), SPAN.text("b"), SPAN.text("c"));
    assert_eq!(three.1.1, "a");
    assert_eq!(three.2.1, "b");
    assert_eq!(three.3.1, "c");
}
