# re_mp4

Reading and writing of the MP4 sample-entry boxes for AV1 (`av01` with its `av1C`
configuration) and HEVC (`hvc1` with its `hvcC` configuration), with their byte layouts
stated as specifications and the code proved against them.

- `src/mp4box/bytes.rs`: big-endian integers, read and written through `byteorder`.
- `src/mp4box/types.rs`: box types, box headers, fixed-point numbers, errors.
- `src/mp4box/av01.rs`, `src/mp4box/hvc1.rs`: the boxes, their byte layouts as
  specifications, readers and writers proved against them, and laws relating them.
- `app/`: stream reading and writing around the library, and the JSON form of the boxes.

Readers take the bytes of a box from its first header byte on (the header itself has
already been decoded by the caller) and give the box with the index where reading stopped.
