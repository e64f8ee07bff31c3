# tguirs

A client library for the Termux:GUI service, written in Verus.

`src/` holds what the client decides and computes, each function with a
contract proved by Verus:

- `frame`: framing of protocol messages (a LEB128 length prefix, then the
  body), the byte-by-byte reader of a length prefix, and the progress of a
  transfer; `lemma_frame_roundtrip` proves that what a reader takes from a
  frame is the body that was framed, and `lemma_chunking_irrelevant` that a
  transfer stands where the total of the reported counts puts it, however
  the message arrived in pieces.
- `items`: the protocol messages that the library sends and reads, as plain
  values.
- `connection`, `activity`, `views`, `hardwarebuffer`: the requests that each
  operation sends and what each reply means.
- `ffi::hb`: the state of the native library that receives hardware buffers.
- `terr`: the error type.

`app/` holds the socket and process calls, the protobuf encoding of the
messages, and the foreign calls into `libandroid.so`; it drives the library's
functions in the order the protocol needs.
