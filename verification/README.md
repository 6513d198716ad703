# functionless_closures

An SWC transform that decorates every closure and class of a JavaScript or
TypeScript module with a description of its own syntax tree, its
"Functionless AST", so that the code can be inspected at run time. Free
variables of a closure become reference nodes that point back at the
variable, and `.bind(..)` calls and `new Proxy(..)` are rewritten so that the
runtime can follow them.

## Layout

- `src/` is the library, verified with Verus. It works on its own model of
  the syntax tree (`js`): a node is a kind, a span, a few scalar fields and
  its children.
  - `virtual_machine`, `lexical_scope`: the scopes of a walk, over `im`'s
    persistent sets and maps.
  - `emit`: what each closure, class and method is parsed into, as spec
    functions; `parse`, `parse_expr`, `parse_stmt`, `parse_fn`, `parse_pat`
    compute it.
  - `closure_decorator`, `decorate`: the transform itself, as spec functions
    (`decorate`) and the code that computes them; `validate` tells whether a
    module is one the transform accepts.
  - `to_functionless_ast`: a second form of the description, as calls on the
    Functionless module.
  - `js_util`, `span`, `ast`, `prepend`, `class_like`, `method_like`:
    builders and accessors.
- `app/` is the SWC plugin: it reads SWC's tree into the library's tree,
  runs the transform and writes the result back.
- `tests/` runs the library on concrete trees.
