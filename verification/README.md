# Phalanx

An inference runtime core for decoder-only language models stored as GGUF,
written in Verus: the container parser, weight directory, model
configuration, tokenizer, dense tensor layout and the shape logic of the
decoder layers carry machine-checked contracts.

## Layout

- `src/` — the verified library.
  - `gguf/` — byte-level GGUF parser against a spec-level parser
    (`spec_parse_gguf`), metadata lookup, tensor directory and alignment.
  - `weights/` — payload spans and bounds of every tensor, quantization block
    layouts, raw `f32`/`f16` words of a tensor.
  - `model/` — hyperparameters read from metadata and their structural checks.
  - `tokenizer/` — vocabulary, greedy and BPE encoders, decoding, and the
    round-trip laws in `roundtrip.rs`.
  - `tensor/` — shapes, row-major offsets, a generic dense tensor.
  - `layers/` — weight names, shape checks of the embedding, norm, rotary,
    attention and feed-forward blocks, head split / merge / KV expansion.
- `tests/` — integration tests against the library.
- `app/` — the command-line program: logging, memory maps, the
  floating-point kernels and layer forward passes, and the layer validators.
