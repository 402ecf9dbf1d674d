# server_actions

A compiler pass for JavaScript modules, verified with Verus. It finds the
functions that are marked `"use server"`, hoists them to the top level of the
module, exports them, and annotates them so that a client can call them by
reference. In a file that is marked `"use server"` as a whole it annotates what
the file exports.

* `src/`: the pass on syntax trees of its own. `transform.rs` says what the pass
  does, as a function of state and tree. `visitor.rs`, `hoist.rs` and
  `exports.rs` do it. What holds of it is in `laws.rs`, `frame.rs`,
  `configured.rs`, `plain.rs`, `prologue.rs`, `repeated.rs`, `free.rs`,
  `mentioned.rs`, `closed.rs`, `exported.rs` and `unhoisted.rs`.
* `tests/`: the parts and the pass on small trees.
* `app/`: the pass as a visitor of `swc` trees, which are taken apart into the
  trees of the library and put back together.

Trusted, not proved: what is said in `src/digest.rs` of `sha1::Sha1::digest` and
`hex::encode`.
