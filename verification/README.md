# Mimi

Mimi is an AI agent harness: a terminal chat (or a JSON-lines stream) in which
a model works on the current directory through file search, read, write, edit,
Bash and todo-list tools, asking the user before anything that changes files
or runs commands.

This crate is split in two:

- `src/` is the library, verified with Verus. It holds the decisions of the
  agent: the conversation context and its compaction rule, the agent loop's
  state transitions, the planning, approval and answering of tool calls, the
  tool definitions offered to the model, the edit algorithm (one unique match,
  then replace/delete/append), the decoding of the server-sent-event stream,
  the model catalog, and the replies the front ends accept.
- `app/` is the program around it: command-line parsing, HTTP streaming,
  the terminal and JSON-lines front ends, file-system and process work, the
  fff search index, and the JSON encoding of the library's types.

`tests/` exercises the library on concrete values.
