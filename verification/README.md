# gear_runner

Runs messages against programs that share one linear memory, and proves with
Verus that the bookkeeping around those runs is right.

- `src/` is the verified library. `runner` decides what happens to the next
  message, `run` covers one run from request to end, and `ext` answers what a
  program asks for while it runs. `laws` states what holds across them.
- `app/` joins a runner to an environment that executes WebAssembly.
- `tests/` runs the library, among others on small WebAssembly modules.

The one thing taken on trust is the BLAKE2b digest of `blake2-rfc`, from which
message identifiers are made.

Some rules are this library's own choice, and nothing outside of it fixes them:

- a program sends at most 1024 messages and one reply in a run (`context`);
- pages are allocated first fit above the static pages, a request for no pages
  is answered with the first page above them, and the memory grows as far as a
  request needs (`allocation`, `memory`);
- a program frees a page only if it owns it and the number of the page is
  between the number of static pages and the number of pages that programs may
  use, both included (`allocation`);
- initializing a program again clears its static memory and its message nonce
  (`program`);
- storages kept in memory are a searched `Vec` of programs, a `VecDeque` of
  messages and a `HashMap` of page owners (`storage`).
