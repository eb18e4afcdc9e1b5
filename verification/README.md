# Unleash provider for OpenFeature, verified with Verus

`src/` is the library: everything that decides what a flag resolves to. It maps an evaluation
context to an Unleash context, selects the payload of a variant, reads it as a text, an integer or
a JSON document, turns documents into flag values, and says when a client registers, polls and
stops. Each function states what it returns, and Verus proves it.

| Module | What it holds |
| --- | --- |
| `context` | evaluation contexts and Unleash contexts, and the mapping between them |
| `payload` | variants, the selection of their payloads, and what these resolve to |
| `json`, `value` | JSON documents, flag values, and the conversion of one into the other |
| `evaluation` | details, reasons and errors |
| `client`, `provider` | what is asked of a client, and the provider that asks it |
| `lifecycle` | when to register, to start polling and to stop |
| `text`, `text_map` | decimal notation, quoted lists, and maps with texts as keys |
| `laws` | what holds of all this together |

`app/` is the asynchronous shell around it: the traits of OpenFeature, the client of an Unleash
server, the conversion of their types, and floating point.

What is taken on trust is marked `external_body` and says in its comment which function of
`serde_json`, `chrono`, `time`, `unleash-api-client` or the standard library it calls.
