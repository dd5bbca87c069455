use chrono::{Datelike, NaiveDateTime, Timelike};
use markreply::admin::{
    delete_comment_statement, list_admin_comments, list_admin_comments_statement,
    toggle_approve_comment, toggle_approve_comment_statements,
};
use markreply::comments::{
    get_comments, get_comments_statement, post_comment, Submission, NO_COMMENTS,
};
use markreply::models::{Comment, CommentQuery, CreateCommentForm};
use markreply::pages::render_admin_row;
use markreply::store::{SqlValue, Statement};
use markreply::time::{Civil, Timestamp};
use sqlx::sqlite::{SqliteArguments, SqliteConnection};
use sqlx::{Arguments, Connection};
use tokio::runtime::Runtime;

const ADMIN: Option<&str> = Some("boss@example.org");

const TABLE: &str = "CREATE TABLE comments (id TEXT PRIMARY KEY NOT NULL, post_slug TEXT NOT NULL, \
    author_name TEXT NOT NULL, author_email TEXT, content TEXT NOT NULL, \
    is_approved BOOLEAN NOT NULL DEFAULT 0, \
    created_at DATETIME NOT NULL DEFAULT CURRENT_TIMESTAMP, parent_id TEXT)";

type Row =
    (String, String, String, Option<String>, String, bool, NaiveDateTime, Option<String>);

struct Store {
    runtime: Runtime,
    connection: SqliteConnection,
}

fn arguments(values: Vec<SqlValue>) -> SqliteArguments<'static> {
    let mut arguments = SqliteArguments::default();
    for value in values {
        match value {
            SqlValue::Text(text) => arguments.add(text).unwrap(),
            SqlValue::Integer(number) => arguments.add(number).unwrap(),
            SqlValue::Null => arguments.add(None::<String>).unwrap(),
        }
    }
    arguments
}

fn comment(row: Row) -> Comment {
    let t = row.6;
    let created_at = Timestamp::new(Civil {
        year: t.year(),
        month: t.month(),
        day: t.day(),
        hour: t.hour(),
        minute: t.minute(),
        second: t.second(),
        nanosecond: t.nanosecond(),
    })
    .unwrap();
    Comment {
        id: row.0,
        post_slug: row.1,
        author_name: row.2,
        author_email: row.3,
        content: row.4,
        is_approved: row.5,
        created_at,
        parent_id: row.7,
    }
}

impl Store {
    fn new() -> Store {
        let runtime = tokio::runtime::Builder::new_current_thread().enable_all().build().unwrap();
        let mut connection =
            runtime.block_on(SqliteConnection::connect("sqlite::memory:")).unwrap();
        runtime.block_on(sqlx::query(TABLE).execute(&mut connection)).unwrap();
        Store { runtime, connection }
    }

    fn run(&mut self, statement: Statement) -> bool {
        let query = sqlx::query_with(statement.sql, arguments(statement.values));
        self.runtime.block_on(query.execute(&mut self.connection)).is_ok()
    }

    fn fetch(&mut self, statement: Statement) -> Vec<Comment> {
        let query = sqlx::query_as_with::<_, Row, _>(statement.sql, arguments(statement.values));
        let rows = self.runtime.block_on(query.fetch_all(&mut self.connection)).unwrap();
        rows.into_iter().map(comment).collect()
    }

    fn post(&mut self, form: CreateCommentForm) -> (u16, Option<String>) {
        match post_comment(form, ADMIN) {
            Submission::Reply(response) => (response.status, None),
            Submission::Store(new) => {
                let id = new.id.clone();
                let saved = self.run(new.insert_statement());
                (new.finish(saved).response.status, Some(id))
            }
        }
    }

    fn page(&mut self, slug: &str) -> String {
        let query = CommentQuery { slug: slug.to_string() };
        let fetched = self.fetch(get_comments_statement(&query));
        get_comments(Some(fetched), ADMIN).body
    }

    fn moderation_table(&mut self) -> String {
        let fetched = self.fetch(list_admin_comments_statement());
        list_admin_comments(Some(fetched)).body
    }

    fn date(&mut self, id: &str, time: &str) {
        let values =
            vec![SqlValue::Text(time.to_string()), SqlValue::Text(id.to_string())];
        let sql = "UPDATE comments SET created_at = ? WHERE id = ?";
        assert!(self.run(Statement { sql, values }));
    }

    fn item(&mut self, id: &str, is_reply: bool) -> String {
        let (_, select) = toggle_approve_comment_statements(id);
        let stored = self.fetch(select).pop().unwrap();
        markreply::pages::render_comment_item(&stored, is_reply, ADMIN)
    }

    fn toggle(&mut self, id: &str) -> String {
        let (update, select) = toggle_approve_comment_statements(id);
        self.run(update);
        toggle_approve_comment(self.fetch(select).pop()).body
    }
}

fn form(name: &str, email: Option<&str>, content: &str) -> CreateCommentForm {
    CreateCommentForm {
        post_slug: "post".to_string(),
        author_name: name.to_string(),
        author_email: email.map(|e| e.to_string()),
        content: content.to_string(),
        parent_id: None,
        honeypot: None,
    }
}

#[test]
fn comments_awaiting_moderation_do_not_show() {
    let mut store = Store::new();
    assert_eq!(store.page("post"), NO_COMMENTS);
    assert_eq!(store.post(form("Boss", Some(" BOSS@example.org "), "hello")).0, 201);
    let page = store.page("post");
    assert!(page.contains("hello"));
    assert_eq!(store.page("other"), NO_COMMENTS);

    assert_eq!(store.post(form("Ann", Some("ann@example.org"), "me too")).0, 201);
    assert_eq!(store.post(form("Ben", None, "and me")).0, 201);
    assert_eq!(store.post(form("Ann", None, "  ")).0, 400);
    let mut machine = form("Bot", None, "buy this");
    machine.honeypot = Some("x".to_string());
    assert_eq!(store.post(machine).0, 200);
    assert_eq!(store.page("post"), page);
    assert!(store.moderation_table().contains("and me"));

    let mut lost = Store::new();
    assert_eq!(lost.post(form("Boss", Some("boss@example.org"), "hello")).0, 201);
    let new = match post_comment(form("Ann", None, "twice"), ADMIN) {
        Submission::Store(new) => new,
        Submission::Reply(_) => panic!("the form is complete"),
    };
    assert!(lost.run(new.insert_statement()));
    let page = lost.page("post");
    assert!(!lost.run(new.insert_statement()));
    assert_eq!(new.finish(false).response.status, 500);
    assert_eq!(lost.page("post"), page);
}

#[test]
fn second_toggle_undoes_the_first() {
    let mut store = Store::new();
    let id = store.post(form("Ann", None, "hi there")).1.unwrap();
    store.post(form("Ben", None, "another"));
    let table = store.moderation_table();
    let (_, select) = toggle_approve_comment_statements(&id);
    let first_row = render_admin_row(&store.fetch(select)[0]);

    let row = store.toggle(&id);
    assert_ne!(row, first_row);
    assert!(row.contains(">Unapprove<"));
    assert!(store.page("post").contains("hi there"));
    assert!(!store.page("post").contains("another"));
    assert!(store.moderation_table().contains(&row));

    assert_eq!(store.toggle(&id), first_row);
    assert_eq!(store.moderation_table(), table);
    assert_eq!(store.page("post"), NO_COMMENTS);
    assert_eq!(store.toggle("unknown"), "");
    assert_eq!(store.moderation_table(), table);
}

#[test]
fn second_deletion_changes_nothing() {
    let mut store = Store::new();
    let id = store.post(form("Ann", None, "first")).1.unwrap();
    store.post(form("Ben", None, "second"));
    store.run(delete_comment_statement(&id));
    let table = store.moderation_table();
    assert!(!table.contains("first") && table.contains("second"));
    store.run(delete_comment_statement(&id));
    assert_eq!(store.moderation_table(), table);
}

#[test]
fn badge_shows_where_the_comment_was_approved_from_the_start() {
    let badge = "<span class=\"mr-admin-badge\">Admin</span>";
    let mut store = Store::new();
    let boss = store.post(form("Boss", Some("Boss@Example.org"), "hello")).1.unwrap();
    let ann = store.post(form("Ann", Some("ann@example.org"), "hello")).1.unwrap();
    for (id, approved) in [(boss, true), (ann, false)] {
        let (_, select) = toggle_approve_comment_statements(&id);
        let stored = store.fetch(select).pop().unwrap();
        assert_eq!(stored.is_approved, approved);
        for is_reply in [false, true] {
            let item = markreply::pages::render_comment_item(&stored, is_reply, ADMIN);
            assert_eq!(item.contains(badge), approved);
        }
    }
}

fn page_with_two_threads() -> (Store, [String; 4]) {
    let mut store = Store::new();
    let mut post = |content: &str, parent: Option<&str>, time: &str| {
        let mut form = form("Ann", None, content);
        form.parent_id = parent.map(|p| p.to_string());
        let id = store.post(form).1.unwrap();
        store.toggle(&id);
        store.date(&id, time);
        id
    };
    let old = post("old", None, "2024-01-01 00:00:00");
    let new = post("new", None, "2024-01-03 00:00:00");
    let reply = post("reply", Some(&old), "2024-01-04 00:00:00");
    let later = post("later", Some(&old), "2024-01-05 00:00:00");
    (store, [old, new, reply, later])
}

#[test]
fn threads_stand_newest_first() {
    let (mut store, [old, new, reply, later]) = page_with_two_threads();
    let expected = store.item(&new, false)
        + &store.item(&old, false)
        + &store.item(&later, true)
        + &store.item(&reply, true);
    assert_eq!(store.page("post"), expected);
}

#[test]
fn hiding_cuts_a_thread_out_and_approving_puts_it_back() {
    let (mut store, [old, new, _, _]) = page_with_two_threads();
    let page = store.page("post");
    let rest = store.item(&new, false);
    store.toggle(&old);
    assert_eq!(store.page("post"), rest);
    store.toggle(&old);
    assert_eq!(store.page("post"), page);
    store.toggle(&new);
    let only_old = page.replacen(&rest, "", 1);
    assert_eq!(store.page("post"), only_old);
    assert_eq!(store.page("other"), NO_COMMENTS);
}

#[test]
fn hiding_a_reply_cuts_its_item_out() {
    let (mut store, [_, _, reply, later]) = page_with_two_threads();
    let page = store.page("post");
    let item = store.item(&reply, true);
    store.toggle(&reply);
    assert_eq!(store.page("post"), page.replacen(&item, "", 1));
    store.toggle(&reply);
    let item = store.item(&later, true);
    store.run(delete_comment_statement(&later));
    assert_eq!(store.page("post"), page.replacen(&item, "", 1));
}

#[test]
fn deleting_cuts_a_thread_out() {
    let (mut store, [old, new, reply, later]) = page_with_two_threads();
    let rest = store.item(&new, false);
    store.run(delete_comment_statement(&old));
    assert_eq!(store.page("post"), rest);
    store.run(delete_comment_statement(&new));
    assert_eq!(store.page("post"), "");
    store.run(delete_comment_statement(&reply));
    store.run(delete_comment_statement(&later));
    assert_eq!(store.page("post"), NO_COMMENTS);
}

#[test]
fn moderation_table_lists_the_latest_hundred() {
    let mut store = Store::new();
    let mut ids: Vec<String> = Vec::new();
    for n in 0..103u32 {
        let id = store.post(form("Ann", None, "hi")).1.unwrap();
        store.date(&id, &format!("2024-01-{:02} {:02}:00:00", n / 24 + 1, n % 24));
        ids.push(id);
    }
    let listed: Vec<String> =
        store.fetch(list_admin_comments_statement()).into_iter().map(|c| c.id).collect();
    ids.reverse();
    assert_eq!(listed, ids[..100]);
    store.run(delete_comment_statement(&ids[5]));
    let listed: Vec<String> =
        store.fetch(list_admin_comments_statement()).into_iter().map(|c| c.id).collect();
    assert_eq!(listed.len(), 100);
    assert!(!listed.contains(&ids[5]) && listed.contains(&ids[100]));
}
