# blockito

A small retrieval-augmented chat service about a knowledge file (cat facts), split in two:

- `src/` is the verified library (Verus). It holds the service's decisions and data handling:
  - `text`: splitting the knowledge file into lines (the retrieval chunks);
  - `vector`: the knowledge base and the ranking of its chunks by similarity (top-n, stable);
  - `chat`: the flow that answers a question — retrieve, create or load the conversation, build
    the instruction prompt and chat request, answer with the model's first choice;
  - `db`: the SQL statements of every database operation and the values they bind;
  - `ids`: fresh row identifiers (random UUIDs, through the `uuid` crate);
  - `http`: the answers of the health, fallback and conversations endpoints and of failures;
  - `model`, `consts`: the records and settings shared by the rest.
- `app/` is the program around it: the axum server, SQLite access through sqlx, HTTP calls to the
  llama server through reqwest, JSON through serde, and the floating-point cosine similarity,
  which it turns into order-preserving integer keys for the library's ranking.
- `tests/` exercises the library on concrete values.
