# test_login_page

The verified core of a small chess-endgame web site (sign-up, login, and a
mini-game whose moves are saved as JSON), written in Verus.

- `src/` is the library, every function with a contract proved by Verus:
  `moves` (UCI moves, the level-1 solution, the saved JSON), `session`
  (password hash and session hash in hex), `levels` (the level list shown to a
  user and the next level to play), `auth` (sign-up checks and the account
  state after login and logout replies), `queries` (SQL statements),
  `decimal` and `text` (integer and string building blocks).
- `app/` is the Dioxus front end and the PostgreSQL calls; it renders, performs
  the I/O and hands the results to the library.
- `tests/` runs the library on concrete values.
