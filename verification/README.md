# markreply

A comment service for static pages. Visitors read and post comments, written in
Markdown and arranged in threads; an administrator approves, hides and deletes
them.

- `src/` is the library, verified with Verus. It turns requests and rows of the
  comment store into answers and SQL statements, and performs no I/O.
  - `comments`: the comments of a page, and the way of a new comment from the
    form to the store.
  - `threads`: replies beneath their parents.
  - `auth`: the administrator's token, cookie and login.
  - `admin`: the moderation page and its table.
  - `table`: what the statements ask of the comment table, and what holds of it
    over several requests.
  - `listing`: which rows the queries ask for, in which order, and what approving,
    hiding and deleting do to the pages. That the database does as it is asked is
    not proved.
  - `rows`: lists of rows, filtered and put in order.
  - `badge`: whose comments carry the administrator's badge.
  - `pages`, `templates`: the HTML that is put together.
  - `widget`, `assets`: the style sheet and the script that a page embeds.
  - `author`, `text`, `time`, `models`, `store`, `reply`: what the others rest on.
  - `markup`, `ids`, and parts of `time` and `auth`: calls of `ammonia`,
    `pulldown_cmark`, `uuid`, `chrono` and `axum::http`, each with a contract that
    is trusted, not proved.
- `app/` is the service around it: `axum` handlers and an SQLite database.
- `tests/` runs the library on concrete values.

The statements that the library states of itself as a whole are the proof
functions whose names start with `law_`.
