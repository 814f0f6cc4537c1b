# password_profile

Password policy, account lockout and password expiry for PostgreSQL: candidate passwords are held
against a policy, their history and a blacklist; failed logins are counted and lock an account;
expired passwords are admitted for a number of grace logins and then refused.

- `src/` is the library, verified with Verus: the policy and the order in which its checks are asked,
  the lock, expiry and bypass caches, the ring of authentication events and its journal format, the
  operations staged in a transaction and what its end does with them, the steps of a login, the rows
  of failed attempts, and what the worker does with events. The `*_laws` modules prove what spans
  several operations.
- `tests/` runs the library.
- `app/` is the extension: hooks, settings, SQL, files, shared memory and the loops that do what the
  library says. Three things are left to SQL there: which of a role's settings apply, who counts as
  exempt, and the calendar arithmetic of an expiry date.

The library calls bcrypt, MD5 and SipHash from outside crates; `src/hashing.rs` and `src/text.rs`
state what it relies on there.
