# johnny_dsl

One mruby virtual machine: run a few chunks of Ruby in order, then one more
expression, and take back the string it produced.

* `src/` is the verified engine. A run (`session::run`) and a compilation
  (`compilation::compile`) are machines that ask for one call into mruby at a
  time (`Action`, `Request`) and take back what it gave (`Event`, `Report`),
  until they finish with a result. An exception a chunk raised is cleared,
  at the machine's request, before the run finishes with its failure. `engine` holds the chunk and failure types,
  the interpreter and context handles, and the checks before and after each
  call; `text` the NUL-byte check and message composition.
* `app/` makes the calls: the hand-written mruby C declarations, the loop that
  performs each action under the compiler lock, and the Python module.
