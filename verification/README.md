# instagram_cli

A command line for reading public Instagram data: profile searches, profile
details, stories, highlight reels and their highlights, posts, and paging
through a profile's posts.

- `src/` is the library, verified with Verus. It describes every request the
  command line sends (`requests`), cuts the shared-data JSON out of a page
  and the query hash out of a script (`text`), and reads profiles, stories,
  highlights and posts out of the JSON answers (`users`, `profile`,
  `highlights`, `post`), over its own JSON type (`json`, which parses text
  with `serde_json`) and the record decoding in `model`. `paging` holds the decisions of the loop that pages
  through a profile's posts.
- `app/` is the program around it: argument handling, the HTTP calls and
  printing of the results.
- `tests/` runs the library on answers shaped like Instagram's.
