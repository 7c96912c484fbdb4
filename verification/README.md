# cxxgen

Generates the C++ side of a bridge between Rust and C++: `write::gen` takes the items of a bridge
and gives the text of its header or of its source file.

- `name`, `syntax`: identifiers and the items of a bridge.
- `text`: lines, comments and lists.
- `out`, `includes`: the file being written and the headers that it asks for.
- `cxx_header`: the sections of the runtime header that a source file repeats.
- `write`: the generator. Each function says in its contract which text it writes.
- `laws`, `lines`, `nesting`, `brackets`: what holds of the parts of a file together.
