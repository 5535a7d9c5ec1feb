use blog_posts::flash::FlashMessage;
use blog_posts::pagination::{resolve, PageLimits};
use blog_posts::post::Post;
use blog_posts::template::{flash_value, post_value, posts_value, Page};
use tera::{Context, Tera, Value};

fn post(id: i32, title: &str, text: &str) -> Post {
    Post { id, title: title.to_owned(), text: text.to_owned() }
}

fn names(context: &Context) -> Vec<String> {
    match context.clone().into_json() {
        Value::Object(fields) => fields.keys().cloned().collect(),
        _ => unreachable!(),
    }
}

#[test]
fn post_becomes_a_json_object() {
    let value = post_value(&post(7, "Hello", "World"));
    let fields = value.as_object().unwrap();
    assert_eq!(fields.len(), 3);
    assert_eq!(fields.get("id"), Some(&Value::from(7)));
    assert_eq!(fields.get("title"), Some(&Value::from("Hello")));
    assert_eq!(fields.get("text"), Some(&Value::from("World")));
}

#[test]
fn post_with_negative_id_keeps_it() {
    let value = post_value(&post(-3, "", ""));
    assert_eq!(value.get("id").and_then(Value::as_i64), Some(-3));
    assert_eq!(value.get("title").and_then(Value::as_str), Some(""));
}

#[test]
fn posts_become_a_json_array_in_their_order() {
    let value = posts_value(&vec![post(2, "b", "y"), post(1, "a", "x")]);
    let items = value.as_array().unwrap();
    assert_eq!(items.len(), 2);
    assert_eq!(items[0], post_value(&post(2, "b", "y")));
    assert_eq!(items[1], post_value(&post(1, "a", "x")));
    assert_eq!(posts_value(&vec![]), Value::Array(vec![]));
}

#[test]
fn notification_becomes_a_json_object() {
    let value = flash_value(&FlashMessage::error("broken"));
    let fields = value.as_object().unwrap();
    assert_eq!(fields.len(), 2);
    assert_eq!(fields.get("kind"), Some(&Value::from("error")));
    assert_eq!(fields.get("message"), Some(&Value::from("broken")));
    let value = flash_value(&FlashMessage::success("fine"));
    assert_eq!(value.get("kind").and_then(Value::as_str), Some("success"));
}

#[test]
fn listing_binds_posts_and_window() {
    let limits = PageLimits::standard();
    let window = resolve(Some("2"), Some("3"), &limits);
    let posts = vec![post(4, "d", "w"), post(5, "e", "v")];
    let page = Page::list(&posts, &window, 5, &None);
    assert_eq!(page.template, "index.html.tera");
    assert_eq!(names(&page.context), vec!["num_pages", "page", "posts", "posts_per_page"]);
    assert_eq!(page.context.get("posts"), Some(&posts_value(&posts)));
    assert_eq!(page.context.get("page"), Some(&Value::from(2u64)));
    assert_eq!(page.context.get("posts_per_page"), Some(&Value::from(3u64)));
    assert_eq!(page.context.get("num_pages"), Some(&Value::from(2u64)));
    assert_eq!(page.context.get("flash"), None);
}

#[test]
fn listing_binds_the_notification_if_there_is_one() {
    let limits = PageLimits::standard();
    let window = resolve(None, None, &limits);
    let flash = Some(FlashMessage::success("Post successfully added"));
    let page = Page::list(&vec![], &window, 0, &flash);
    assert_eq!(names(&page.context), vec!["flash", "num_pages", "page", "posts", "posts_per_page"]);
    assert_eq!(
        page.context.get("flash"),
        Some(&flash_value(&FlashMessage::success("Post successfully added"))),
    );
    assert_eq!(page.context.get("num_pages"), Some(&Value::from(0u64)));
    assert_eq!(page.context.get("page"), Some(&Value::from(1u64)));
    assert_eq!(page.context.get("posts_per_page"), Some(&Value::from(5u64)));
}

#[test]
fn new_form_binds_the_notification_only() {
    let page = Page::new_form(&None);
    assert_eq!(page.template, "new.html.tera");
    assert_eq!(page.context, Context::new());
    let page = Page::new_form(&Some(FlashMessage::error("Title is required")));
    assert_eq!(names(&page.context), vec!["flash"]);
    assert_eq!(
        page.context.get("flash"),
        Some(&flash_value(&FlashMessage::error("Title is required"))),
    );
}

#[test]
fn edit_form_binds_the_post() {
    let page = Page::edit_form(&post(9, "T", "B"), &None);
    assert_eq!(page.template, "edit.html.tera");
    assert_eq!(names(&page.context), vec!["post"]);
    assert_eq!(page.context.get("post"), Some(&post_value(&post(9, "T", "B"))));
    let page = Page::edit_form(&post(9, "T", "B"), &Some(FlashMessage::error("no")));
    assert_eq!(names(&page.context), vec!["flash", "post"]);
}

#[test]
fn pages_render_with_the_template_engine() {
    let mut tera = Tera::default();
    tera.add_raw_template(
        "index.html.tera",
        "{% if flash %}[{{ flash.kind }}: {{ flash.message }}]{% endif %}\
         {% for post in posts %}<{{ post.id }}|{{ post.title }}|{{ post.text }}>{% endfor %}\
         {{ page }}/{{ num_pages }} by {{ posts_per_page }}",
    )
    .unwrap();
    tera.add_raw_template(
        "edit.html.tera",
        "edit {{ post.id }}: {{ post.title }} - {{ post.text }}",
    )
    .unwrap();
    let limits = PageLimits::standard();
    let window = resolve(Some("2"), Some("2"), &limits);
    let posts = vec![post(3, "c", "z"), post(4, "d", "w")];
    let page = Page::list(&posts, &window, 5, &Some(FlashMessage::success("done")));
    assert_eq!(
        tera.render(&page.template, &page.context).unwrap(),
        "[success: done]<3|c|z><4|d|w>2/3 by 2",
    );
    let page = Page::edit_form(&post(4, "d", "w"), &None);
    assert_eq!(tera.render(&page.template, &page.context).unwrap(), "edit 4: d - w");
}
